//! The namespace detacher: the one-time detachment of the calling process's
//! mount table from the rest of the system.
//!
//! Detachment happens at most once per run. The detacher hands out exactly
//! one detach request; asking again is a no-op that hands out nothing, so a
//! second, discarded namespace can never be created behind the first one.
//! It must be asked only after the caller-supplied rootfs path has been
//! resolved to canonical form, because all later mount operations are scoped
//! to the new namespace.

use vstd::prelude::*;
use crate::error::PipelineError;

verus! {

/// The OS-level flag selecting the mount namespace for detachment.
pub const OS_CLONE_NEWNS: i32 = 0x20000;

/// The one request the detacher hands out: the flag word the front end
/// passes to the namespace-detach call.
#[derive(Clone, Copy, PartialEq, Eq, Structural, Debug)]
pub struct DetachRequest {
    pub os_flags: i32,
}

/// Tracks whether this run has already detached its mount namespace.
pub struct NamespaceDetacher {
    pub detached: bool,
}

impl NamespaceDetacher {
    /// A fresh detacher: nothing detached yet.
    pub fn new() -> (d: NamespaceDetacher)
        ensures
            !d.detached,
    {
        NamespaceDetacher { detached: false }
    }

    /// Ask for the detach request. The first call hands out the one request
    /// and records the detachment; every later call within the same run is a
    /// no-op that hands out nothing, so the namespace-detach operation can
    /// never be issued twice.
    pub fn detach_mount_namespace(&mut self) -> (r: Option<DetachRequest>)
        ensures
            !old(self).detached ==> (final(self).detached && r == Option::Some(
                DetachRequest { os_flags: OS_CLONE_NEWNS },
            )),
            old(self).detached ==> (*final(self) == *old(self) && r is None),
    {
        if self.detached {
            Option::None
        } else {
            self.detached = true;
            Option::Some(DetachRequest { os_flags: OS_CLONE_NEWNS })
        }
    }
}

/// A refused detachment is a privilege failure: fatal, never retried, since
/// namespace creation does not fail transiently.
pub fn detach_failure(os_code: i32) -> (e: PipelineError)
    ensures
        e == (PipelineError::Privilege { os_code }),
{
    PipelineError::Privilege { os_code }
}

} // verus!
