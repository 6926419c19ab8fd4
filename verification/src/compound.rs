//! Compound tokens: six tokens written with six digits each and joined by a separator.

use crate::error::TotpError;
use crate::token::{generate_token, seed_token, TOKEN_MODULUS};
use vstd::prelude::*;
use vstd::string::{StringExecFns, StringSliceAdditionalSpecFns};

verus! {

/// How many seeds, and so how many groups of digits, a compound token has.
pub const SEED_COUNT: usize = 6;

/// The character between two groups of a compound token.
pub open spec fn separator() -> char {
    '-'
}

/// The decimal digit `digit`, from 0 to 9, as a character.
pub open spec fn digit_char(digit: int) -> char
    recommends
        0 <= digit <= 9,
{
    ('0' as u8 + digit) as char
}

/// Whether `c` is one of the characters `0` to `9`.
pub open spec fn is_digit(c: char) -> bool {
    '0' <= c <= '9'
}

/// The number that a digit character stands for.
pub open spec fn digit_value(c: char) -> int
    recommends
        is_digit(c),
{
    c as int - '0' as int
}

/// A token value written with six decimal digits, padded with zeros on the left.
pub open spec fn six_digits(value: int) -> Seq<char>
    recommends
        0 <= value < TOKEN_MODULUS,
{
    seq![
        digit_char(value / 100_000 % 10),
        digit_char(value / 10_000 % 10),
        digit_char(value / 1_000 % 10),
        digit_char(value / 100 % 10),
        digit_char(value / 10 % 10),
        digit_char(value % 10),
    ]
}

/// The key bytes of six seeds: the UTF-8 encoding of each, in order.
pub open spec fn seed_keys(seeds: [&str; 6]) -> Seq<Seq<u8>> {
    Seq::new(6, |i: int| seeds[i].spec_bytes())
}

/// The tokens of the first `count` keys, each written with six digits, joined by the
/// separator.
pub open spec fn joined_tokens(keys: Seq<Seq<u8>>, time: u64, window: u64, count: nat) -> Seq<
    char,
>
    decreases count,
{
    if count == 0 {
        Seq::empty()
    } else if count == 1 {
        six_digits(seed_token(keys[0], time, window))
    } else {
        joined_tokens(keys, time, window, (count - 1) as nat).push(separator()) + six_digits(
            seed_token(keys[count - 1], time, window),
        )
    }
}

/// The compound token of six keys at `time`: their six tokens in the order of the keys.
pub open spec fn compound_token(keys: Seq<Seq<u8>>, time: u64, window: u64) -> Seq<char>
    recommends
        keys.len() == 6,
        window > 0,
{
    joined_tokens(keys, time, window, 6)
}

/// The length of a compound token: six groups of six digits and five separators.
pub const COMPOUND_LENGTH: usize = 41;

/// The shape of every compound token: six groups of six digits, with a separator after
/// each group but the last.
pub open spec fn is_compound_shape(text: Seq<char>) -> bool {
    &&& text.len() == COMPOUND_LENGTH
    &&& forall|at: int|
        0 <= at < COMPOUND_LENGTH ==> if at % 7 == 6 {
            text[at] == separator()
        } else {
            is_digit(#[trigger] text[at])
        }
}

/// Where each character of the joined tokens comes from: every seventh character is a
/// separator, and the six before it are the digits of one key's token.
pub proof fn lemma_joined_tokens_layout(keys: Seq<Seq<u8>>, time: u64, window: u64, count: nat)
    ensures
        joined_tokens(keys, time, window, count).len() == if count == 0 {
            0
        } else {
            7 * count - 1
        },
        forall|at: int|
            0 <= at < 7 * count - 1 ==> #[trigger] joined_tokens(keys, time, window, count)[at]
                == if at % 7 == 6 {
                separator()
            } else {
                six_digits(seed_token(keys[at / 7], time, window))[at % 7]
            },
    decreases count,
{
    if count > 1 {
        lemma_joined_tokens_layout(keys, time, window, (count - 1) as nat);
    }
}

/// A digit's character is a digit character, and it stands for that digit.
pub proof fn lemma_digit_char(digit: int)
    requires
        0 <= digit <= 9,
    ensures
        is_digit(digit_char(digit)),
        digit_value(digit_char(digit)) == digit,
{
}

/// Six digits are six digit characters.
pub proof fn lemma_six_digits(value: int)
    ensures
        six_digits(value).len() == 6,
        forall|at: int| 0 <= at < 6 ==> is_digit(#[trigger] six_digits(value)[at]),
{
    lemma_digit_char(value / 100_000 % 10);
    lemma_digit_char(value / 10_000 % 10);
    lemma_digit_char(value / 1_000 % 10);
    lemma_digit_char(value / 100 % 10);
    lemma_digit_char(value / 10 % 10);
    lemma_digit_char(value % 10);
}

/// Every compound token has the shape of one, whatever the keys, the time and the window.
pub proof fn lemma_compound_token_shape(keys: Seq<Seq<u8>>, time: u64, window: u64)
    ensures
        is_compound_shape(compound_token(keys, time, window)),
{
    let text = compound_token(keys, time, window);
    lemma_joined_tokens_layout(keys, time, window, 6);
    assert forall|at: int| 0 <= at < COMPOUND_LENGTH implies if at % 7 == 6 {
        text[at] == separator()
    } else {
        is_digit(#[trigger] text[at])
    } by {
        if at % 7 != 6 {
            lemma_six_digits(seed_token(keys[at / 7], time, window));
        }
    }
}

/// The text of one decimal digit.
fn digit_text(digit: u32) -> (text: &'static str)
    requires
        digit < 10,
    ensures
        text@ == seq![digit_char(digit as int)],
{
    proof {
        reveal_strlit("0");
        reveal_strlit("1");
        reveal_strlit("2");
        reveal_strlit("3");
        reveal_strlit("4");
        reveal_strlit("5");
        reveal_strlit("6");
        reveal_strlit("7");
        reveal_strlit("8");
        reveal_strlit("9");
    }
    let text: &'static str = match digit {
        0 => "0",
        1 => "1",
        2 => "2",
        3 => "3",
        4 => "4",
        5 => "5",
        6 => "6",
        7 => "7",
        8 => "8",
        _ => "9",
    };
    assert(text@ =~= seq![digit_char(digit as int)]);
    text
}

/// Writes a token with six decimal digits, padded with zeros on the left.
pub fn format_token(token: u32) -> (text: String)
    requires
        token < TOKEN_MODULUS,
    ensures
        text@ == six_digits(token as int),
{
    let mut text = String::new();
    text.append(digit_text(token / 100_000 % 10));
    text.append(digit_text(token / 10_000 % 10));
    text.append(digit_text(token / 1_000 % 10));
    text.append(digit_text(token / 100 % 10));
    text.append(digit_text(token / 10 % 10));
    text.append(digit_text(token % 10));
    assert(text@ =~= six_digits(token as int));
    text
}

/// Derives the compound token of six seeds for the window that holds `time`: the six
/// tokens, in the order of the seeds, with a separator between neighbours.
///
/// The token is a function of the seeds' bytes and of the time counter alone. A window
/// of zero seconds is refused.
pub fn generate_combined_token(seeds: [&str; 6], time: u64, window: u64) -> (result: Result<
    String,
    TotpError,
>)
    ensures
        match result {
            Ok(text) => window > 0 && text@ == compound_token(seed_keys(seeds), time, window),
            Err(error) => window == 0 && error == TotpError::InvalidWindow,
        },
        result matches Ok(text) ==> is_compound_shape(text@),
{
    if window == 0 {
        return Err(TotpError::InvalidWindow);
    }
    let mut text = String::new();
    let mut index: usize = 0;
    while index < SEED_COUNT
        invariant
            window > 0,
            index <= SEED_COUNT,
            text@ == joined_tokens(seed_keys(seeds), time, window, index as nat),
        decreases SEED_COUNT - index,
    {
        if index > 0 {
            proof {
                reveal_strlit("-");
            }
            text.append("-");
            assert(text@ =~= joined_tokens(seed_keys(seeds), time, window, index as nat).push(
                separator(),
            ));
        }
        match generate_token(seeds[index], time, window) {
            Ok(token) => {
                let group = format_token(token);
                text.append(group.as_str());
            },
            Err(error) => {
                return Err(error);
            },
        }
        index += 1;
    }
    proof {
        lemma_compound_token_shape(seed_keys(seeds), time, window);
    }
    Ok(text)
}

} // verus!
