//! The keyed hash under the one-time passwords: HMAC (RFC 2104) over SHA-1.

use hmac::{Hmac, Mac, NewMac};
use sha1::Sha1;
use vstd::prelude::*;

verus! {

/// The HMAC-SHA1 authentication code of `message` under `key`, as the `hmac`
/// and `sha-1` crates compute it. The code depends on the two byte strings
/// and on nothing else.
pub uninterp spec fn hmac_sha1(key: Seq<u8>, message: Seq<u8>) -> Seq<u8>;

/// Computes the HMAC-SHA1 code of `message` under `key`.
///
/// Trusted, not proved: the body keys `hmac::Hmac<sha1::Sha1>` with
/// `NewMac::new_varkey`, feeds it the message with `Mac::update` and reads the
/// code with `Mac::finalize`. The contract claims that the bytes returned are
/// the code named [`hmac_sha1`] of the two inputs, and that there are 20 of
/// them, the output size of SHA-1. `new_varkey` of `Hmac` returns `Ok` for a
/// key of any length (a key longer than a block is hashed first, a shorter one
/// is padded), so the `expect` below never fires.
#[verifier::external_body]
pub(crate) fn hmac_sha1_code(key: &[u8], message: &[u8]) -> (code: Vec<u8>)
    ensures
        code@ == hmac_sha1(key@, message@),
        code@.len() == 20,
{
    let mut mac = Hmac::<Sha1>::new_varkey(key).expect("HMAC takes a key of any length");
    mac.update(message);
    mac.finalize().into_bytes().to_vec()
}

} // verus!
