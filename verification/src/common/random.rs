//! Random bytes from the operating system, through `rand_core`.

use crate::common::errors::Error;
use rand_core::OsRng;
use rand_core::TryRngCore;
use vstd::prelude::*;

verus! {

/// Makes `rand_core::OsError` known to the verifier, as a type it cannot
/// look into.
#[verifier::external_type_specification]
#[verifier::external_body]
pub struct ExOsError(rand_core::OsError);

/// Calls `rand_core::TryRngCore::try_fill_bytes` on `OsRng`.
///
/// Trusted: the buffer keeps its length. Nothing is claimed of the bytes,
/// nor of whether the source succeeds.
#[verifier::external_body]
pub(crate) fn fill_from_os(dest: &mut Vec<u8>) -> (res: Result<(), rand_core::OsError>)
    ensures
        final(dest)@.len() == old(dest)@.len(),
{
    OsRng.try_fill_bytes(dest.as_mut_slice())
}

/// Formats a `rand_core::OsError` through its `Display` impl.
///
/// Trusted: nothing is claimed of the text.
#[verifier::external_body]
pub(crate) fn os_error_text(error: &rand_core::OsError) -> String {
    format!("{}", error)
}

/// What a request for random bytes comes to, given the buffer and what the
/// operating system's source reported after filling it: the buffer as it is,
/// or an `Operation` error with the source's own words.
pub fn random_outcome(buffer: Vec<u8>, filled: Result<(), String>) -> (res: Result<Vec<u8>, Error>)
    ensures
        filled is Ok ==> res == Ok::<Vec<u8>, Error>(buffer),
        filled matches Err(text) ==> res == Err::<Vec<u8>, Error>(Error::Operation(text)),
{
    match filled {
        Ok(()) => Ok(buffer),
        Err(text) => Err(Error::Operation(text)),
    }
}

/// `len` fresh random bytes from the operating system.
///
/// The source decides whether the call succeeds; when it reports a failure
/// the error is `Operation` and carries the source's own words.
pub fn random_bytes(len: usize) -> (res: Result<Vec<u8>, Error>)
    ensures
        res matches Ok(bytes) ==> bytes@.len() == len,
        res matches Err(e) ==> e is Operation,
{
    let mut buffer: Vec<u8> = vec![0u8; len];
    let filled = match fill_from_os(&mut buffer) {
        Ok(()) => Ok(()),
        Err(e) => Err(os_error_text(&e)),
    };
    random_outcome(buffer, filled)
}

} // verus!
