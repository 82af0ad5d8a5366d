//! The alternate system-audio capture backend's surface. A platform
//! backend must satisfy the same contract as the capture adapter — produce
//! normalized mono samples at a reported rate through a queue — so the
//! lifecycle runtime can substitute it without protocol changes. This build
//! carries no platform backend.

use vstd::prelude::*;

verus! {

/// Whether the platform's system-audio capture backend is usable. Without
/// one, system audio is only captured through a loopback device chosen by
/// the selector, so this build always reports it unavailable.
pub fn check_permission() -> (r: Result<bool, String>)
    ensures
        r == Ok::<bool, String>(false),
{
    Ok(false)
}

} // verus!
