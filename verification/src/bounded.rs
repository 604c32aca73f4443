//! Length checks on the byte strings that enter storage.
//!
//! A field that is too long is rejected, never truncated.

use vstd::prelude::*;
use crate::error::Error;

verus! {

/// Whether a byte string respects a maximum length.
pub open spec fn fits(bytes: Seq<u8>, max: u32) -> bool {
    bytes.len() <= max
}

/// Length-checks `bytes` against `max`.
///
/// Hands the bytes back untouched when they fit, and fails with `too_long`,
/// the failure named for the field at hand, when they do not.
pub fn bound(bytes: Vec<u8>, max: u32, too_long: Error) -> (res: Result<Vec<u8>, Error>)
    ensures
        fits(bytes@, max) ==> res == Ok::<Vec<u8>, Error>(bytes),
        !fits(bytes@, max) ==> res == Err::<Vec<u8>, Error>(too_long),
{
    if bytes.len() <= max as usize {
        Ok(bytes)
    } else {
        Err(too_long)
    }
}

} // verus!
