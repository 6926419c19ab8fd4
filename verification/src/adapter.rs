//! Entry points for callers that hold their seeds in a list of any length. They are
//! what a WebAssembly binding offers to JavaScript, which has no arrays of fixed
//! length; hence their names.

use crate::compound::{compound_token, generate_combined_token, seed_keys, SEED_COUNT};
use crate::error::TotpError;
use crate::verify::{token_accepted, verify_combined_token};
use vstd::prelude::*;
use vstd::utf8::encode_utf8;

verus! {

/// How many of the six places stay empty before the first seed of a list with
/// `count` entries: a short list is moved to the last places, a list of six or more
/// starts at the first.
pub open spec fn slot_shift(count: nat) -> int {
    if count < 6 {
        6 - count
    } else {
        0
    }
}

/// The seed that a list of any length puts at `place`. A list shorter than six is
/// padded on the left: the empty seed stands in the first places and the list's own
/// seeds, in their order, in the last. Of a longer list the first six entries stand.
pub open spec fn slot_text(seeds: Seq<String>, place: int) -> Seq<char> {
    let shift = slot_shift(seeds.len());
    if shift <= place < 6 {
        seeds[place - shift]@
    } else {
        Seq::empty()
    }
}

/// The keys of the six seeds that a list of any length stands for: the UTF-8 encoding
/// of the seed at each of the six places.
pub open spec fn slot_keys(seeds: Seq<String>) -> Seq<Seq<u8>> {
    Seq::new(6, |place: int| encode_utf8(slot_text(seeds, place)))
}

/// Lays a list of seeds out on six places. A list shorter than six is padded on the
/// left with the empty seed, so that its own seeds come last; of a longer list the
/// entries after the sixth are left out.
pub fn six_slots<'a>(seeds: &'a Vec<String>) -> (slots: [&'a str; 6])
    ensures
        forall|place: int|
            0 <= place < 6 ==> (#[trigger] slots[place])@ == slot_text(seeds@, place),
        seed_keys(slots) == slot_keys(seeds@),
{
    proof {
        reveal_strlit("");
    }
    let mut slots: [&'a str; 6] = [""; 6];
    let shift: usize = if seeds.len() < SEED_COUNT {
        SEED_COUNT - seeds.len()
    } else {
        0
    };
    let mut place: usize = shift;
    while place < SEED_COUNT
        invariant
            shift == slot_shift(seeds@.len()),
            shift <= place <= SEED_COUNT,
            forall|at: int|
                shift <= at < place ==> (#[trigger] slots[at])@ == seeds[at - shift]@,
            forall|at: int|
                0 <= at < 6 && !(shift <= at < place) ==> (#[trigger] slots[at])@ == Seq::<
                    char,
                >::empty(),
        decreases SEED_COUNT - place,
    {
        slots[place] = seeds[place - shift].as_str();
        place += 1;
    }
    assert(seed_keys(slots) =~= slot_keys(seeds@));
    slots
}

/// Generates a compound token from a list of seeds of any length, laid out on six
/// places as [`six_slots`] does.
pub fn wasm_generate_combined_token(seeds: Vec<String>, time: u64, window: u64) -> (result: Result<
    String,
    TotpError,
>)
    ensures
        match result {
            Ok(text) => window > 0 && text@ == compound_token(slot_keys(seeds@), time, window),
            Err(error) => window == 0 && error == TotpError::InvalidWindow,
        },
{
    let slots = six_slots(&seeds);
    generate_combined_token(slots, time, window)
}

/// Verifies a compound token against a list of seeds of any length, laid out on six
/// places as [`six_slots`] does.
pub fn wasm_verify_combined_token(
    seeds: Vec<String>,
    time: u64,
    token: String,
    window: u64,
    allowed_windows: u32,
    unit: String,
) -> (result: Result<bool, TotpError>)
    ensures
        match result {
            Ok(accepted) => window > 0 && accepted == token_accepted(
                slot_keys(seeds@),
                time,
                token@,
                window,
                allowed_windows,
            ),
            Err(error) => window == 0 && error == TotpError::InvalidWindow,
        },
{
    let slots = six_slots(&seeds);
    verify_combined_token(slots, time, token.as_str(), window, allowed_windows, unit.as_str())
}

} // verus!
