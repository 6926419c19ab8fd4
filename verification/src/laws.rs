//! What holds of tokens and of their verification for all seeds, times and windows.

use crate::compound::{
    compound_token, digit_value, lemma_digit_char, lemma_joined_tokens_layout, six_digits,
    COMPOUND_LENGTH,
};
use crate::token::{
    counter_message, seed_token, time_counter, truncated_code, truncation_offset, TOKEN_MODULUS,
};
use crate::verify::{matches_at, max_drift, shifted_time, token_accepted};
use vstd::arithmetic::div_mod::{
    lemma_fundamental_div_mod, lemma_fundamental_div_mod_converse, lemma_mod_pos_bound,
};
use vstd::prelude::*;

verus! {

/// The six digits that belong to the key at place `index` in a compound token.
pub open spec fn token_group(text: Seq<char>, index: int) -> Seq<char>
    recommends
        text.len() == COMPOUND_LENGTH,
        0 <= index < 6,
{
    text.subrange(7 * index, 7 * index + 6)
}

/// The eight bytes of a counter, read as a number with the most significant byte
/// first, are the counter again.
pub proof fn lemma_counter_message_is_big_endian(counter: u64)
    ensures
        ({
            let bytes = counter_message(counter as int);
            &&& bytes.len() == 8
            &&& counter == bytes[0] * 0x100_0000_0000_0000 + bytes[1] * 0x1_0000_0000_0000
                + bytes[2] * 0x100_0000_0000 + bytes[3] * 0x1_0000_0000 + bytes[4] * 0x100_0000
                + bytes[5] * 0x1_0000 + bytes[6] * 0x100 + bytes[7]
        }),
{
    let value = counter as int;
    assert(value / 0x1_0000 == value / 0x100 / 0x100);
    assert(value / 0x100_0000 == value / 0x1_0000 / 0x100);
    assert(value / 0x1_0000_0000 == value / 0x100_0000 / 0x100);
    assert(value / 0x100_0000_0000 == value / 0x1_0000_0000 / 0x100);
    assert(value / 0x1_0000_0000_0000 == value / 0x100_0000_0000 / 0x100);
    assert(value / 0x100_0000_0000_0000 == value / 0x1_0000_0000_0000 / 0x100);
    assert(value / 0x100_0000_0000_0000 < 0x100);
}

/// Dynamic truncation stays inside a 20-byte digest, and the code it reads fits in 31
/// bits, so that it is not negative where it is held in a signed 32-bit number.
pub proof fn lemma_truncation_in_bounds(digest: Seq<u8>)
    requires
        digest.len() == 20,
    ensures
        0 <= truncation_offset(digest) <= 15,
        truncation_offset(digest) + 3 < digest.len(),
        0 <= truncated_code(digest) <= i32::MAX,
{
}

/// The six digits of a token spell its value in decimal.
pub proof fn lemma_six_digits_spell_value(value: int)
    requires
        0 <= value < TOKEN_MODULUS,
    ensures
        ({
            let digits = six_digits(value);
            value == digit_value(digits[0]) * 100_000 + digit_value(digits[1]) * 10_000
                + digit_value(digits[2]) * 1_000 + digit_value(digits[3]) * 100 + digit_value(
                digits[4],
            ) * 10 + digit_value(digits[5])
        }),
{
    let tens = value / 10;
    let hundreds = value / 100;
    let thousands = value / 1_000;
    let ten_thousands = value / 10_000;
    let hundred_thousands = value / 100_000;
    assert(hundreds == tens / 10);
    assert(thousands == hundreds / 10);
    assert(ten_thousands == thousands / 10);
    assert(hundred_thousands == ten_thousands / 10);
    assert(hundred_thousands == hundred_thousands % 10);
    lemma_digit_char(hundred_thousands % 10);
    lemma_digit_char(ten_thousands % 10);
    lemma_digit_char(thousands % 10);
    lemma_digit_char(hundreds % 10);
    lemma_digit_char(tens % 10);
    lemma_digit_char(value % 10);
}

/// Two times in the same window give one key the same token.
pub proof fn lemma_same_window_same_token(key: Seq<u8>, first: u64, second: u64, window: u64)
    requires
        window > 0,
        time_counter(first, window) == time_counter(second, window),
    ensures
        seed_token(key, first, window) == seed_token(key, second, window),
{
}

/// Two times in the same window give six keys the same compound token.
pub proof fn lemma_same_window_same_compound_token(
    keys: Seq<Seq<u8>>,
    first: u64,
    second: u64,
    window: u64,
)
    requires
        keys.len() == 6,
        window > 0,
        time_counter(first, window) == time_counter(second, window),
    ensures
        compound_token(keys, first, window) == compound_token(keys, second, window),
{
    lemma_joined_tokens_layout(keys, first, window, 6);
    lemma_joined_tokens_layout(keys, second, window, 6);
    assert(compound_token(keys, first, window) =~= compound_token(keys, second, window));
}

/// Each group of a compound token is the token of the key at the same place, and of
/// no other key.
pub proof fn lemma_group_is_token_of_key(keys: Seq<Seq<u8>>, time: u64, window: u64, index: int)
    requires
        keys.len() == 6,
        window > 0,
        0 <= index < 6,
    ensures
        token_group(compound_token(keys, time, window), index) == six_digits(
            seed_token(keys[index], time, window),
        ),
{
    lemma_joined_tokens_layout(keys, time, window, 6);
    let group = token_group(compound_token(keys, time, window), index);
    let digits = six_digits(seed_token(keys[index], time, window));
    assert forall|at: int| 0 <= at < 6 implies group[at] == digits[at] by {
        assert((7 * index + at) / 7 == index && (7 * index + at) % 7 == at);
    }
    assert(group =~= digits);
}

/// Two tokens that are written with the same six digits are the same token.
pub proof fn lemma_six_digits_tell_tokens_apart(first: int, second: int)
    requires
        0 <= first < TOKEN_MODULUS,
        0 <= second < TOKEN_MODULUS,
        six_digits(first) == six_digits(second),
    ensures
        first == second,
{
    lemma_six_digits_spell_value(first);
    lemma_six_digits_spell_value(second);
}

/// Where one of six seeds is changed, the groups of the other five stay as they were,
/// and the group of the changed seed changes exactly where its token does.
pub proof fn lemma_seed_change_is_local(
    before: Seq<Seq<u8>>,
    after: Seq<Seq<u8>>,
    changed: int,
    time: u64,
    window: u64,
)
    requires
        before.len() == 6,
        after.len() == 6,
        window > 0,
        0 <= changed < 6,
        forall|index: int| 0 <= index < 6 && index != changed ==> before[index] == after[index],
    ensures
        forall|index: int|
            0 <= index < 6 && index != changed ==> #[trigger] token_group(
                compound_token(before, time, window),
                index,
            ) == token_group(compound_token(after, time, window), index),
        token_group(compound_token(before, time, window), changed) == token_group(
            compound_token(after, time, window),
            changed,
        ) <==> seed_token(before[changed], time, window) == seed_token(
            after[changed],
            time,
            window,
        ),
{
    assert forall|index: int| 0 <= index < 6 implies #[trigger] token_group(
        compound_token(before, time, window),
        index,
    ) == six_digits(seed_token(before[index], time, window)) && token_group(
        compound_token(after, time, window),
        index,
    ) == six_digits(seed_token(after[index], time, window)) by {
        lemma_group_is_token_of_key(before, time, window, index);
        lemma_group_is_token_of_key(after, time, window, index);
    }
    let old_token = seed_token(before[changed], time, window);
    let new_token = seed_token(after[changed], time, window);
    if six_digits(old_token) == six_digits(new_token) {
        lemma_six_digits_tell_tokens_apart(old_token, new_token);
    }
}

/// A compound token is accepted at the time it was generated for, however many windows
/// are allowed.
pub proof fn lemma_round_trip(keys: Seq<Seq<u8>>, time: u64, window: u64, allowed_windows: u32)
    requires
        keys.len() == 6,
        window > 0,
    ensures
        token_accepted(
            keys,
            time,
            compound_token(keys, time, window),
            window,
            allowed_windows,
        ),
{
    assert(0 * window == 0) by (nonlinear_arith);
    assert(matches_at(keys, time, compound_token(keys, time, window), window, 0));
}

/// Zero allowed windows accept what one allowed window accepts: the token of the
/// current window alone.
pub proof fn lemma_zero_windows_as_one(keys: Seq<Seq<u8>>, time: u64, token: Seq<char>, window: u64)
    requires
        keys.len() == 6,
        window > 0,
    ensures
        token_accepted(keys, time, token, window, 0) == token_accepted(
            keys,
            time,
            token,
            window,
            1,
        ),
        token_accepted(keys, time, token, window, 1) == (token == compound_token(
            keys,
            time,
            window,
        )),
{
    assert(0 * window == 0) by (nonlinear_arith);
    assert(matches_at(keys, time, token, window, 0) == (token == compound_token(
        keys,
        time,
        window,
    )));
}

/// With `allowed_windows` at least one, a token generated `drift` windows away from
/// `time` is accepted at `time` where `drift` is no more than `allowed_windows - 1`
/// windows in either direction.
pub proof fn lemma_drift_within_tolerance(
    keys: Seq<Seq<u8>>,
    time: u64,
    window: u64,
    allowed_windows: u32,
    drift: int,
    generated: u64,
)
    requires
        keys.len() == 6,
        window > 0,
        allowed_windows >= 1,
        shifted_time(time, drift, window) == Some(generated),
        -(allowed_windows - 1) <= drift <= allowed_windows - 1,
    ensures
        token_accepted(
            keys,
            time,
            compound_token(keys, generated, window),
            window,
            allowed_windows,
        ),
{
    assert(matches_at(keys, time, compound_token(keys, generated, window), window, drift));
}

/// A whole number of windows moves the time counter by that number.
pub proof fn lemma_shift_moves_counter(time: u64, step: int, window: u64, shifted: u64)
    requires
        window > 0,
        shifted_time(time, step, window) == Some(shifted),
    ensures
        time_counter(shifted, window) == time_counter(time, window) + step,
{
    let quotient = time as int / window as int;
    let remainder = time as int % window as int;
    lemma_fundamental_div_mod(time as int, window as int);
    lemma_mod_pos_bound(time as int, window as int);
    assert(shifted == (quotient + step) * window + remainder) by (nonlinear_arith)
        requires
            shifted == time + step * window,
            time == window * quotient + remainder,
    ;
    lemma_fundamental_div_mod_converse(
        shifted as int,
        window as int,
        quotient + step,
        remainder,
    );
}

/// With `allowed_windows` at least one, a token generated `drift` windows away from
/// `time` is refused at `time` where `drift` is `allowed_windows` windows or more in
/// either direction, unless one of the windows that are tried, each of them another
/// window than the one the token was generated in, happens to have that same token.
pub proof fn lemma_drift_beyond_tolerance(
    keys: Seq<Seq<u8>>,
    time: u64,
    window: u64,
    allowed_windows: u32,
    drift: int,
    generated: u64,
)
    requires
        keys.len() == 6,
        window > 0,
        allowed_windows >= 1,
        shifted_time(time, drift, window) == Some(generated),
        drift <= -allowed_windows || allowed_windows <= drift,
        forall|step: int|
            -(allowed_windows - 1) <= step <= allowed_windows - 1 ==> match #[trigger] shifted_time(
                time,
                step,
                window,
            ) {
                Some(near) => time_counter(near, window) != time_counter(generated, window)
                    ==> compound_token(keys, near, window) != compound_token(
                    keys,
                    generated,
                    window,
                ),
                None => true,
            },
    ensures
        !token_accepted(
            keys,
            time,
            compound_token(keys, generated, window),
            window,
            allowed_windows,
        ),
{
    let token = compound_token(keys, generated, window);
    lemma_shift_moves_counter(time, drift, window, generated);
    let reach = max_drift(allowed_windows);
    assert forall|step: int| -reach <= step <= reach implies !#[trigger] matches_at(
        keys,
        time,
        token,
        window,
        step,
    ) by {
        if let Some(near) = shifted_time(time, step, window) {
            lemma_shift_moves_counter(time, step, window, near);
        }
    }
}

} // verus!
