//! Verification of a compound token with a tolerance for clocks that drift.

use crate::compound::{compound_token, generate_combined_token, seed_keys};
use crate::error::TotpError;
use vstd::prelude::*;
use vstd::string::StringExecFns;

verus! {

/// The largest drift, counted in windows, that `allowed_windows` tolerates on either
/// side of the current window. Zero allowed windows count as one.
pub open spec fn max_drift(allowed_windows: u32) -> int {
    if allowed_windows <= 1 {
        0
    } else {
        allowed_windows - 1
    }
}

/// The time `step` windows away from `time`, where that time can be represented;
/// a step that leads before time zero or past the largest time leads nowhere.
pub open spec fn shifted_time(time: u64, step: int, window: u64) -> Option<u64> {
    let shifted = time + step * window;
    if 0 <= shifted <= u64::MAX {
        Some(shifted as u64)
    } else {
        None
    }
}

/// Whether `token` is the compound token of the keys `step` windows away from `time`.
pub open spec fn matches_at(
    keys: Seq<Seq<u8>>,
    time: u64,
    token: Seq<char>,
    window: u64,
    step: int,
) -> bool {
    match shifted_time(time, step, window) {
        Some(shifted) => token == compound_token(keys, shifted, window),
        None => false,
    }
}

/// Whether `token` is the compound token of the keys in the window of `time` or in one
/// of the windows at most `max_drift(allowed_windows)` windows before or after it.
pub open spec fn token_accepted(
    keys: Seq<Seq<u8>>,
    time: u64,
    token: Seq<char>,
    window: u64,
    allowed_windows: u32,
) -> bool {
    exists|step: int|
        -max_drift(allowed_windows) <= step <= max_drift(allowed_windows) && #[trigger] matches_at(
            keys,
            time,
            token,
            window,
            step,
        )
}

/// Moves `time` by `step` windows, without wrapping around: the result is `None` where
/// the time moved would be negative or too large for 64 bits.
pub fn shift_time(time: u64, step: i64, window: u64) -> (shifted: Option<u64>)
    ensures
        shifted == shifted_time(time, step as int, window),
{
    assert(-0x8000_0000_0000_0000 * 0xffff_ffff_ffff_ffff <= step * window
        <= 0x7fff_ffff_ffff_ffff * 0xffff_ffff_ffff_ffff) by (nonlinear_arith)
        requires
            -0x8000_0000_0000_0000 <= step <= 0x7fff_ffff_ffff_ffff,
            0 <= window <= 0xffff_ffff_ffff_ffff,
    ;
    let moved: i128 = time as i128 + (step as i128) * (window as i128);
    if 0 <= moved && moved <= u64::MAX as i128 {
        Some(moved as u64)
    } else {
        None
    }
}

/// Regenerates the compound token `step` windows away from `time` and compares it,
/// character by character, with the expected one.
fn matches_shifted(
    seeds: [&str; 6],
    time: u64,
    expected: &String,
    window: u64,
    step: i64,
) -> (found: bool)
    requires
        window > 0,
    ensures
        found == matches_at(seed_keys(seeds), time, expected@, window, step as int),
{
    match shift_time(time, step, window) {
        Some(shifted) => match generate_combined_token(seeds, shifted, window) {
            Ok(candidate) => candidate == *expected,
            Err(_) => false,
        },
        None => false,
    }
}

/// Decides whether `token` is the compound token of the six seeds at `time`, or at a
/// time that lies fewer than `allowed_windows` windows before or after it.
///
/// The current window is tried first, then the windows one step later and earlier, two
/// steps later and earlier, and so on. Zero allowed windows count as one. Tokens are
/// compared as whole strings. A token that matches nowhere is not an error: the answer
/// is `Ok(false)`. A window of zero seconds is refused.
///
/// `unit` names the unit of `time` and `window`. Seconds are the only unit, so it has
/// no effect on the answer.
pub fn verify_combined_token(
    seeds: [&str; 6],
    time: u64,
    token: &str,
    window: u64,
    allowed_windows: u32,
    unit: &str,
) -> (result: Result<bool, TotpError>)
    ensures
        match result {
            Ok(accepted) => window > 0 && accepted == token_accepted(
                seed_keys(seeds),
                time,
                token@,
                window,
                allowed_windows,
            ),
            Err(error) => window == 0 && error == TotpError::InvalidWindow,
        },
{
    // Whatever the unit says, times and windows are counted in seconds.
    let _ = unit;
    if window == 0 {
        return Err(TotpError::InvalidWindow);
    }
    let expected = String::from_str(token);
    if matches_shifted(seeds, time, &expected, window, 0) {
        return Ok(true);
    }
    let mut distance: u32 = 1;
    while distance < allowed_windows
        invariant
            window > 0,
            expected@ == token@,
            1 <= distance,
            distance <= allowed_windows || allowed_windows == 0,
            forall|step: int|
                -distance < step < distance ==> !#[trigger] matches_at(
                    seed_keys(seeds),
                    time,
                    token@,
                    window,
                    step,
                ),
        decreases allowed_windows - distance,
    {
        let step: i64 = distance as i64;
        if matches_shifted(seeds, time, &expected, window, step) {
            return Ok(true);
        }
        if matches_shifted(seeds, time, &expected, window, -step) {
            return Ok(true);
        }
        distance += 1;
    }
    Ok(false)
}

} // verus!
