//! What the texts for the user say.
use vstd::prelude::*;

use crate::error::ArmDebugSequenceError;
use crate::laws;
use crate::scattered_read;
use crate::scattered_read::BaseError;
use crate::text;

verus! {

/// The values of the eight hexadecimal digits of a word.
spec fn nibbles(word: u32) -> Seq<int> {
    seq![
        (word / 0x1000_0000) as int,
        (word / 0x0100_0000 % 16) as int,
        (word / 0x0010_0000 % 16) as int,
        (word / 0x0001_0000 % 16) as int,
        (word / 0x1000 % 16) as int,
        (word / 0x100 % 16) as int,
        (word / 0x10 % 16) as int,
        (word % 16) as int,
    ]
}

/// A word is printed as `0x` and eight lower-case digits, and what is printed is read back as that
/// word.
pub proof fn law_printed_words_are_read_back(word: u32)
    ensures
        text::hex_word(word).len() == 10,
        text::hex_word(word)[0] == '0',
        text::hex_word(word)[1] == 'x',
        forall|i: int|
            2 <= i < 10 ==> laws::scattered_read::lower().contains(
                #[trigger] text::hex_word(word)[i],
            ),
        scattered_read::base_value(text::hex_word(word)) == Ok::<int, BaseError>(word as int),
{
    reveal_strlit("0x");
    reveal_strlit("0123456789abcdef");
    let printed = text::hex_word(word);
    let digits = printed.skip(2);
    let values = nibbles(word);
    assert("0123456789abcdef"@ == laws::scattered_read::lower());
    assert((word >> 28u32) & 0xF == word / 0x1000_0000 && (word >> 24u32) & 0xF == word
        / 0x0100_0000 % 16 && (word >> 20u32) & 0xF == word / 0x0010_0000 % 16 && (word >> 16u32)
        & 0xF == word / 0x0001_0000 % 16 && (word >> 12u32) & 0xF == word / 0x1000 % 16 && (word
        >> 8u32) & 0xF == word / 0x100 % 16 && (word >> 4u32) & 0xF == word / 0x10 % 16 && (word
        >> 0u32) & 0xF == word % 16) by (bit_vector);
    assert(laws::scattered_read::spells(digits, values)) by {
        assert forall|i: int|
            #![trigger digits[i]]
            #![trigger values[i]]
            0 <= i < 8 implies 0 <= values[i] < 16 && digits[i] == laws::scattered_read::lower()[values[i]] by {
            assert(digits[i] == text::hex_digit(
                ((word >> ((28 - 4 * i) as u32)) & 0xF) as int,
            ));
            if i == 0 {
            } else if i == 1 {
            } else if i == 2 {
            } else if i == 3 {
            } else if i == 4 {
            } else if i == 5 {
            } else if i == 6 {
            } else {
                assert(i == 7);
            }
        }
    }
    assert(laws::scattered_read::weigh(values) == word) by {
        reveal_with_fuel(laws::scattered_read::weigh, 9);
    }
    laws::scattered_read::law_base_is_read_as_spelled(digits, values);
    assert(printed == seq!['0', 'x'] + digits);
    assert forall|i: int| 2 <= i < 10 implies laws::scattered_read::lower().contains(
        #[trigger] printed[i],
    ) by {
        assert(printed[i] == digits[i - 2]);
        assert(printed[i] == laws::scattered_read::lower()[values[i - 2]]);
    }
}

/// The message about a command without an answer names the command where it belongs, whatever it is
/// called, and says what happened around it.
pub proof fn law_no_answer_message(what: &'static str, message: String)
    requires
        call_ensures(
            ArmDebugSequenceError::message,
            (&ArmDebugSequenceError::NoAnswer { what },),
            message,
        ),
    ensures
        ({
            let name_end = 39 + what@.len() as int;
            &&& message@.len() == name_end + 8
            &&& message@.take(39) == "MSPM0: the boot ROM did not answer the "@
            &&& message@.subrange(39, name_end) == what@
            &&& message@.skip(name_end) == " command"@
        }),
{
    reveal_strlit("MSPM0: the boot ROM did not answer the ");
    reveal_strlit(" command");
    let name_end = 39 + what@.len() as int;
    assert(message@.take(39) == "MSPM0: the boot ROM did not answer the "@);
    assert(message@.subrange(39, name_end) == what@);
    assert(message@.skip(name_end) == " command"@);
}

/// The message about a rejected command names the command, and shows both words that were read in a
/// form from which they can be read back, the data before the control word.
pub proof fn law_rejected_message(
    what: &'static str,
    response: u32,
    echoed: u32,
    message: String,
)
    requires
        call_ensures(
            ArmDebugSequenceError::message,
            (&ArmDebugSequenceError::Rejected { what, response, echoed },),
            message,
        ),
    ensures
        ({
            let name_end = 7 + what@.len() as int;
            &&& message@.len() == name_end + 45
            &&& message@.take(7) == "MSPM0: "@
            &&& message@.subrange(7, name_end) == what@
            &&& message@.subrange(name_end, name_end + 18) == " rejected, RXDATA "@
            &&& scattered_read::base_value(message@.subrange(name_end + 18, name_end + 28)) == Ok::<
                int,
                BaseError,
            >(response as int)
            &&& message@.subrange(name_end + 28, name_end + 35) == " RXCTL "@
            &&& scattered_read::base_value(message@.skip(name_end + 35)) == Ok::<int, BaseError>(
                echoed as int,
            )
        }),
{
    reveal_strlit("MSPM0: ");
    reveal_strlit(" rejected, RXDATA ");
    reveal_strlit(" RXCTL ");
    let name_end = 7 + what@.len() as int;
    law_printed_words_are_read_back(response);
    law_printed_words_are_read_back(echoed);
    assert(message@.take(7) == "MSPM0: "@);
    assert(message@.subrange(7, name_end) == what@);
    assert(message@.subrange(name_end, name_end + 18) == " rejected, RXDATA "@);
    assert(message@.subrange(name_end + 18, name_end + 28) == text::hex_word(response));
    assert(message@.subrange(name_end + 28, name_end + 35) == " RXCTL "@);
    assert(message@.skip(name_end + 35) == text::hex_word(echoed));
}

/// A text is found to begin with a prefix exactly when the prefix and something else, put together,
/// are the text.
pub proof fn law_prefix_and_rest_are_the_text(text: &str, prefix: &str, found: bool)
    requires
        call_ensures(text::starts_with, (text, prefix), found),
    ensures
        found <==> exists|rest: Seq<char>| text@ == #[trigger] (prefix@ + rest),
{
    if found {
        assert(text@ == prefix@ + text@.skip(prefix@.len() as int));
    } else if exists|rest: Seq<char>| text@ == #[trigger] (prefix@ + rest) {
        let rest = choose|rest: Seq<char>| text@ == #[trigger] (prefix@ + rest);
        assert(text@.subrange(0, prefix@.len() as int) == prefix@);
    }
}

} // verus!
