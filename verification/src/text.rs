//! The little text handling that the sequences need.
use vstd::prelude::*;
use vstd::string::*;

verus! {

/// Tells whether `text` begins with `prefix`.
pub fn starts_with(text: &str, prefix: &str) -> (found: bool)
    ensures
        found == prefix@.is_prefix_of(text@),
{
    let length: usize = prefix.unicode_len();
    if text.unicode_len() < length {
        return false;
    }
    let mut at: usize = 0;
    while at < length
        invariant
            at <= length,
            length == prefix@.len(),
            length <= text@.len(),
            prefix@.take(at as int) == text@.take(at as int),
        decreases length - at,
    {
        if text.get_char(at) != prefix.get_char(at) {
            proof {
                assert(text@.take(length as int)[at as int] != prefix@[at as int]);
            }
            return false;
        }
        proof {
            assert(prefix@.take(at + 1) == prefix@.take(at as int).push(prefix@[at as int]));
            assert(text@.take(at + 1) == text@.take(at as int).push(text@[at as int]));
        }
        at = at + 1;
    }
    proof {
        assert(prefix@.take(length as int) == prefix@);
        assert(text@.take(length as int) == text@.subrange(0, length as int));
    }
    true
}

/// The lower-case hexadecimal digit for a value below 16.
pub open spec fn hex_digit(value: int) -> char {
    "0123456789abcdef"@[value]
}

/// A word as `0x` and eight hexadecimal digits, the most significant first.
pub open spec fn hex_word(word: u32) -> Seq<char> {
    "0x"@ + Seq::new(8, |place: int| hex_digit(((word >> ((28 - 4 * place) as u32)) & 0xF) as int))
}

/// Appends one hexadecimal digit.
fn append_hex_digit(text: &mut String, value: u32)
    requires
        value < 16,
    ensures
        final(text)@ == old(text)@.push(hex_digit(value as int)),
{
    let digits = "0123456789abcdef";
    proof {
        reveal_strlit("0123456789abcdef");
    }
    let at: usize = value as usize;
    text.append(digits.substring_char(at, at + 1));
    proof {
        assert(digits@.subrange(at as int, at + 1) == seq![hex_digit(value as int)]);
    }
}

/// Appends `word` as `0x` and eight hexadecimal digits.
pub fn append_hex_word(text: &mut String, word: u32)
    ensures
        final(text)@ == old(text)@ + hex_word(word),
{
    let ghost before = text@;
    let ghost digits = Seq::new(
        8,
        |place: int| hex_digit(((word >> ((28 - 4 * place) as u32)) & 0xF) as int),
    );
    text.append("0x");
    let mut place: u32 = 0;
    while place < 8
        invariant
            place <= 8,
            digits == Seq::new(
                8,
                |place: int| hex_digit(((word >> ((28 - 4 * place) as u32)) & 0xF) as int),
            ),
            text@ == before + "0x"@ + digits.take(place as int),
        decreases 8 - place,
    {
        let shift: u32 = 28 - 4 * place;
        assert((word >> shift) & 0xF < 16) by (bit_vector);
        append_hex_digit(text, (word >> shift) & 0xF);
        proof {
            assert(digits.take(place + 1) == digits.take(place as int).push(digits[place as int]));
        }
        place = place + 1;
    }
    proof {
        assert(digits.take(8) == digits);
    }
}

} // verus!
