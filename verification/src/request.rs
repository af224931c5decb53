//! The propagation primitive's verified half: validated, fully translated
//! mount and unmount requests.
//!
//! A request is constructed here — where the flag set is checked against the
//! closed tag set and translated to the OS-level bits — and performed by the
//! unverified front end. A malformed flag set never yields a request, so the
//! underlying OS call can never be attempted with one.

use vstd::prelude::*;
use crate::error::PipelineError;
use crate::flags::{MountFlags, UmountFlags};
use crate::flags::{offending_bits, translate_spec, umount_translate_spec};

verus! {

/// The OS-level bitmask a mount request carries for an optional tag set
/// (absent means a plain mount with no flags).
pub open spec fn mount_mask_spec(flags: Option<MountFlags>) -> u64 {
    match flags {
        Option::None => 0,
        Option::Some(f) => translate_spec(f.bits),
    }
}

/// The OS-level flag word an unmount request carries for an optional tag set.
pub open spec fn umount_mask_spec(flags: Option<UmountFlags>) -> i32 {
    match flags {
        Option::None => 0,
        Option::Some(f) => umount_translate_spec(f.bits),
    }
}

/// A validated mount operation: source path (or the literal "none" when no
/// source device applies), target path, filesystem type (empty for bind and
/// propagation changes), the semantic tag set, and the translated OS-level
/// bitmask the front end hands to the mount call.
#[derive(Debug)]
pub struct MountRequest {
    pub source: String,
    pub target: String,
    pub fstype: String,
    pub flags: Option<MountFlags>,
    pub os_flags: u64,
}

/// A validated unmount operation: target path, the semantic tag set, and the
/// translated OS-level flag word.
#[derive(Debug)]
pub struct UmountRequest {
    pub target: String,
    pub flags: Option<UmountFlags>,
    pub os_flags: i32,
}

impl MountRequest {
    /// Well-formed: the tag set is drawn from the closed set with at most one
    /// propagation-mode tag, and the OS-level bitmask is its translation.
    pub open spec fn wf(self) -> bool {
        &&& (self.flags matches Option::Some(f) ==> f.valid())
        &&& self.os_flags == mount_mask_spec(self.flags)
    }

    /// Validate a flag set and build the mount request. A set holding a bit
    /// outside the closed tags, or more than one propagation-mode tag, is
    /// rejected here, naming the offending bits, and no request exists for
    /// the front end to perform.
    pub fn new(source: String, target: String, fstype: String, flags: Option<MountFlags>) -> (r:
        Result<MountRequest, PipelineError>)
        ensures
            r is Ok <==> (flags matches Option::Some(f) ==> f.valid()),
            r matches Ok(req) ==> {
                &&& req.source@ == source@
                &&& req.target@ == target@
                &&& req.fstype@ == fstype@
                &&& req.flags == flags
                &&& req.os_flags == mount_mask_spec(flags)
                &&& req.wf()
            },
            r matches Err(e) ==> (flags matches Option::Some(f) && !f.valid() && e
                == (PipelineError::InvalidFlags { bits: offending_bits(f.bits) })),
    {
        let os_flags: u64 = match flags {
            Option::Some(f) => {
                match f.check() {
                    Ok(()) => f.translate(),
                    Err(bits) => {
                        return Err(PipelineError::InvalidFlags { bits });
                    },
                }
            },
            Option::None => 0,
        };
        Ok(MountRequest { source, target, fstype, flags, os_flags })
    }
}

impl UmountRequest {
    /// Well-formed: the tag set is drawn from the closed unmount tags, and
    /// the OS-level flag word is its translation.
    pub open spec fn wf(self) -> bool {
        &&& (self.flags matches Option::Some(f) ==> f.valid())
        &&& self.os_flags == umount_mask_spec(self.flags)
    }

    /// Validate a flag set and build the unmount request; a set holding a bit
    /// outside the closed unmount tags is rejected, naming those bits.
    pub fn new(target: String, flags: Option<UmountFlags>) -> (r: Result<
        UmountRequest,
        PipelineError,
    >)
        ensures
            r is Ok <==> (flags matches Option::Some(f) ==> f.valid()),
            r matches Ok(req) ==> {
                &&& req.target@ == target@
                &&& req.flags == flags
                &&& req.os_flags == umount_mask_spec(flags)
                &&& req.wf()
            },
            r matches Err(e) ==> (flags matches Option::Some(f) && !f.valid() && e
                == (PipelineError::InvalidFlags { bits: f.bits & !crate::flags::UMNT_ALL })),
    {
        let os_flags: i32 = match flags {
            Option::Some(f) => {
                match f.check() {
                    Ok(()) => f.translate(),
                    Err(bits) => {
                        return Err(PipelineError::InvalidFlags { bits });
                    },
                }
            },
            Option::None => 0,
        };
        Ok(UmountRequest { target, flags, os_flags })
    }
}

} // verus!
