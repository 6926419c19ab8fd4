//! The token of one seed: an HMAC-SHA1 over the time counter, truncated to six digits.

use crate::error::TotpError;
use crate::mac::{hmac_sha1, hmac_sha1_digest};
use vstd::prelude::*;
use vstd::string::StringSliceAdditionalSpecFns;

verus! {

/// One more than the largest token: a token is written with six decimal digits.
pub const TOKEN_MODULUS: u32 = 1_000_000;

/// The time counter at `time`: the number of whole windows that have passed.
pub open spec fn time_counter(time: u64, window: u64) -> int
    recommends
        window > 0,
{
    time as int / window as int
}

/// The eight bytes that stand for `counter`, the most significant byte first.
pub open spec fn counter_message(counter: int) -> Seq<u8> {
    seq![
        (counter / 0x100_0000_0000_0000 % 0x100) as u8,
        (counter / 0x1_0000_0000_0000 % 0x100) as u8,
        (counter / 0x100_0000_0000 % 0x100) as u8,
        (counter / 0x1_0000_0000 % 0x100) as u8,
        (counter / 0x100_0000 % 0x100) as u8,
        (counter / 0x1_0000 % 0x100) as u8,
        (counter / 0x100 % 0x100) as u8,
        (counter % 0x100) as u8,
    ]
}

/// Where the four bytes of the code start in a digest: the low four bits of its last byte.
pub open spec fn truncation_offset(digest: Seq<u8>) -> int {
    digest[19] as int % 16
}

/// The 31-bit code that dynamic truncation reads from a 20-byte digest: the four bytes
/// at the truncation offset as a big-endian number, without the top bit.
pub open spec fn truncated_code(digest: Seq<u8>) -> int {
    let at = truncation_offset(digest);
    (digest[at] as int % 0x80) * 0x100_0000 + digest[at + 1] as int * 0x1_0000 + digest[at
        + 2] as int * 0x100 + digest[at + 3] as int
}

/// The token that a 20-byte digest stands for.
pub open spec fn token_value(digest: Seq<u8>) -> int {
    truncated_code(digest) % (TOKEN_MODULUS as int)
}

/// The token of one seed, given as its key bytes, at `time` with windows of `window` seconds.
pub open spec fn seed_token(key: Seq<u8>, time: u64, window: u64) -> int
    recommends
        window > 0,
{
    token_value(hmac_sha1(key, counter_message(time_counter(time, window))))
}

/// Encodes a counter as eight bytes, the most significant byte first.
pub fn counter_bytes(counter: u64) -> (bytes: [u8; 8])
    ensures
        bytes@ == counter_message(counter as int),
{
    let bytes: [u8; 8] = [
        ((counter >> 56) & 0xff) as u8,
        ((counter >> 48) & 0xff) as u8,
        ((counter >> 40) & 0xff) as u8,
        ((counter >> 32) & 0xff) as u8,
        ((counter >> 24) & 0xff) as u8,
        ((counter >> 16) & 0xff) as u8,
        ((counter >> 8) & 0xff) as u8,
        (counter & 0xff) as u8,
    ];
    proof {
        assert((counter >> 56) & 0xff == counter / 0x100_0000_0000_0000 % 0x100) by (bit_vector);
        assert((counter >> 48) & 0xff == counter / 0x1_0000_0000_0000 % 0x100) by (bit_vector);
        assert((counter >> 40) & 0xff == counter / 0x100_0000_0000 % 0x100) by (bit_vector);
        assert((counter >> 32) & 0xff == counter / 0x1_0000_0000 % 0x100) by (bit_vector);
        assert((counter >> 24) & 0xff == counter / 0x100_0000 % 0x100) by (bit_vector);
        assert((counter >> 16) & 0xff == counter / 0x1_0000 % 0x100) by (bit_vector);
        assert((counter >> 8) & 0xff == counter / 0x100 % 0x100) by (bit_vector);
        assert(counter & 0xff == counter % 0x100) by (bit_vector);
        assert(bytes@ =~= counter_message(counter as int));
    }
    bytes
}

/// Reads the token out of a digest by dynamic truncation.
pub fn token_from_digest(digest: &[u8; 20]) -> (token: u32)
    ensures
        token == token_value(digest@),
        token < TOKEN_MODULUS,
{
    let last: u8 = digest[19];
    let at: usize = (last & 0x0f) as usize;
    assert(last & 0x0f == last % 16) by (bit_vector);
    let b0: u32 = digest[at] as u32;
    let b1: u32 = digest[at + 1] as u32;
    let b2: u32 = digest[at + 2] as u32;
    let b3: u32 = digest[at + 3] as u32;
    let code: u32 = ((b0 & 0x7f) << 24) | (b1 << 16) | (b2 << 8) | b3;
    assert(code == (b0 % 0x80) * 0x100_0000 + b1 * 0x1_0000 + b2 * 0x100 + b3) by (bit_vector)
        requires
            code == ((b0 & 0x7f) << 24) | (b1 << 16) | (b2 << 8) | b3,
            b0 < 0x100,
            b1 < 0x100,
            b2 < 0x100,
            b3 < 0x100,
    ;
    code % TOKEN_MODULUS
}

/// Derives the six-digit token of one seed for the window that holds `time`.
///
/// The token is a function of the seed's bytes and of the time counter alone: two
/// calls with the same seed, time and window return the same token, below a million.
/// A window of zero seconds is refused.
pub fn generate_token(seed: &str, time: u64, window: u64) -> (result: Result<u32, TotpError>)
    ensures
        match result {
            Ok(token) => window > 0 && token == seed_token(seed.spec_bytes(), time, window),
            Err(error) => window == 0 && error == TotpError::InvalidWindow,
        },
        result matches Ok(token) ==> token < TOKEN_MODULUS,
{
    if window == 0 {
        return Err(TotpError::InvalidWindow);
    }
    let counter: u64 = time / window;
    let message: [u8; 8] = counter_bytes(counter);
    let digest: [u8; 20] = hmac_sha1_digest(seed.as_bytes(), message.as_slice());
    Ok(token_from_digest(&digest))
}

} // verus!
