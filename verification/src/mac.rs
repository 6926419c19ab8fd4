//! The keyed hash under the tokens, computed by the `hmac` and `sha1` crates.

use hmac::{Hmac, Mac};
use sha1::Sha1;
use vstd::prelude::*;

verus! {

/// The HMAC-SHA1 authentication code of `message` under `key`, as a sequence of bytes.
pub uninterp spec fn hmac_sha1(key: Seq<u8>, message: Seq<u8>) -> Seq<u8>;

/// Computes HMAC-SHA1 with `hmac::Hmac<sha1::Sha1>`: `Mac::new_from_slice` keys the
/// state, `Mac::update` feeds it the message and `Mac::finalize` yields the code.
///
/// Trusted, not proved: the result is the code that [`hmac_sha1`] names, a function of
/// the key bytes and the message bytes alone. The call cannot fail: for `Hmac`,
/// `new_from_slice` takes a key of any length (it pads a short key with zeros and
/// hashes a long one first) and always returns `Ok`. A SHA-1 code is 20 bytes long.
#[verifier::external_body]
pub(crate) fn hmac_sha1_digest(key: &[u8], message: &[u8]) -> (digest: [u8; 20])
    ensures
        digest@ == hmac_sha1(key@, message@),
{
    let mut mac = Hmac::<Sha1>::new_from_slice(key).expect("HMAC takes a key of any length");
    mac.update(message);
    mac.finalize().into_bytes().into()
}

} // verus!
