//! Judging what a peek at the inbound stream handed back.
//!
//! A peek copies the bytes at the front of the stream without consuming
//! them. The proxy always asks for an exact number of bytes, and a peek that
//! hands back any other number has failed.

use crate::failure::Failure;
use vstd::prelude::*;

verus! {

/// What a peek comes to that was asked for `wanted` bytes and handed back
/// `got`.
pub open spec fn peek_outcome(got: nat, wanted: usize) -> Result<(), Failure> {
    if got == wanted {
        Ok(())
    } else {
        Err(Failure::ShortPeek { wanted, got: got as usize })
    }
}

/// Accepts `bytes` as the answer to a peek of `wanted` bytes only where it
/// holds exactly that many.
pub fn check_peek(bytes: &[u8], wanted: usize) -> (result: Result<(), Failure>)
    ensures
        result == peek_outcome(bytes@.len(), wanted),
{
    if bytes.len() == wanted {
        Ok(())
    } else {
        Err(Failure::ShortPeek { wanted, got: bytes.len() })
    }
}

} // verus!
