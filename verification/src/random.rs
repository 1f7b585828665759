//! Random bytes.

use vstd::prelude::*;

use crate::text::{hex, to_hex};

verus! {

/// `getrandom::fill`: writes over the bytes and keeps their number; a failure
/// comes as its message. Nothing is said of the bytes or of the message: they
/// are up to the system.
#[verifier::external_body]
pub(crate) fn fill(dest: &mut [u8]) -> (r: Result<(), String>)
    ensures
        final(dest)@.len() == old(dest)@.len(),
{
    match getrandom::fill(dest) {
        Ok(()) => Ok(()),
        Err(e) => Err(e.to_string()),
    }
}

/// `s` is sixteen bytes in lower-case hexadecimal.
pub open spec fn is_id(s: Seq<char>) -> bool {
    exists|bytes: Seq<u8>| bytes.len() == 16 && s == #[trigger] hex(bytes)
}

/// A fresh subscription id: sixteen random bytes in hexadecimal. Without
/// random bytes to be had, a zeroed id still works as a key.
pub fn random_id() -> (r: String)
    ensures
        is_id(r@),
{
    let mut bytes = [0u8; 16];
    let _ = fill(&mut bytes);
    to_hex(&bytes)
}

} // verus!
