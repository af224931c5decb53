//! Propagation flags: the closed set of semantic mount tags, the closed set
//! of unmount tags, and their translation to the OS-level bit representation.
//!
//! The semantic tags form a closed set of six bits. `REC` is a modifier; the
//! other five are propagation-mode tags, of which a well-formed flag set
//! carries at most one (so a contradictory request such as bind combined with
//! make-shared is rejected at construction time, before any OS call is made).

use vstd::prelude::*;

verus! {

/// Semantic tag: apply the operation recursively to the whole subtree.
pub const FLAG_REC: u32 = 0b000001;
/// Semantic tag: bind an existing directory tree at another path.
pub const FLAG_BIND: u32 = 0b000010;
/// Semantic tag: make the mount a propagation slave (receive, never send).
pub const FLAG_SLAVE: u32 = 0b000100;
/// Semantic tag: make the mount shared (propagate in both directions).
pub const FLAG_SHARED: u32 = 0b001000;
/// Semantic tag: make the mount private (no propagation either way).
pub const FLAG_PRIVATE: u32 = 0b010000;
/// Semantic tag: forbid bind mounts of this mount point.
pub const FLAG_UNBINDABLE: u32 = 0b100000;
/// Every known semantic tag; any bit outside this mask is rejected.
pub const FLAG_ALL: u32 = 0b111111;
/// The five mutually exclusive propagation-mode tags (all but `REC`).
pub const FLAG_MODES: u32 = 0b111110;

/// OS-level bit for a bind mount.
pub const MS_BIND: u64 = 0x1000;
/// OS-level bit for recursive application.
pub const MS_REC: u64 = 0x4000;
/// OS-level bit for unbindable propagation.
pub const MS_UNBINDABLE: u64 = 0x20000;
/// OS-level bit for private propagation.
pub const MS_PRIVATE: u64 = 0x40000;
/// OS-level bit for slave propagation.
pub const MS_SLAVE: u64 = 0x80000;
/// OS-level bit for shared propagation.
pub const MS_SHARED: u64 = 0x100000;

/// Unmount tag: do not follow a trailing symlink on the target.
pub const UMNT_NOFOLLOW: u32 = 0b01;
/// Unmount tag: lazy unmount — detach now, release once no longer busy.
pub const UMNT_DETACH: u32 = 0b10;
/// Every known unmount tag.
pub const UMNT_ALL: u32 = 0b11;

/// OS-level bit for a lazy (deferred) unmount.
pub const OS_MNT_DETACH: i32 = 0x2;

/// A set of semantic mount tags, held as a bitmask over the closed set above.
#[derive(Clone, Copy, PartialEq, Eq, Structural, Debug)]
pub struct MountFlags {
    pub bits: u32,
}

/// A set of semantic unmount tags.
#[derive(Clone, Copy, PartialEq, Eq, Structural, Debug)]
pub struct UmountFlags {
    pub bits: u32,
}

/// How many of the five mutually exclusive propagation-mode tags are set.
pub open spec fn mode_tag_count(bits: u32) -> int {
    (if bits & FLAG_BIND != 0 { 1int } else { 0int })
        + (if bits & FLAG_SLAVE != 0 { 1int } else { 0int })
        + (if bits & FLAG_SHARED != 0 { 1int } else { 0int })
        + (if bits & FLAG_PRIVATE != 0 { 1int } else { 0int })
        + (if bits & FLAG_UNBINDABLE != 0 { 1int } else { 0int })
}

/// The OS-level bitmask that a set of semantic mount tags denotes.
/// A pure function of the tag set alone.
pub open spec fn translate_spec(bits: u32) -> u64 {
    let m0: u64 = 0;
    let m1: u64 = if bits & FLAG_REC != 0 { m0 | MS_REC } else { m0 };
    let m2: u64 = if bits & FLAG_BIND != 0 { m1 | MS_BIND } else { m1 };
    let m3: u64 = if bits & FLAG_SLAVE != 0 { m2 | MS_SLAVE } else { m2 };
    let m4: u64 = if bits & FLAG_SHARED != 0 { m3 | MS_SHARED } else { m3 };
    let m5: u64 = if bits & FLAG_PRIVATE != 0 { m4 | MS_PRIVATE } else { m4 };
    if bits & FLAG_UNBINDABLE != 0 { m5 | MS_UNBINDABLE } else { m5 }
}

/// The bits of a malformed tag set that a report should name: the unknown
/// bits if there are any, otherwise the contradictory propagation-mode bits.
pub open spec fn offending_bits(bits: u32) -> u32 {
    if bits & !FLAG_ALL != 0 {
        bits & !FLAG_ALL
    } else {
        bits & FLAG_MODES
    }
}

impl MountFlags {
    /// A well-formed tag set: drawn from the closed set, with at most one
    /// propagation-mode tag.
    pub open spec fn valid(self) -> bool {
        self.bits & !FLAG_ALL == 0 && mode_tag_count(self.bits) <= 1
    }

    /// The union of two tag sets.
    pub fn union(self, other: MountFlags) -> (r: MountFlags)
        ensures
            r.bits == self.bits | other.bits,
    {
        MountFlags { bits: self.bits | other.bits }
    }

    /// Translate this tag set into the OS-level bitmask.
    pub fn translate(self) -> (r: u64)
        ensures
            r == translate_spec(self.bits),
    {
        let mut m: u64 = 0;
        if self.bits & FLAG_REC != 0 {
            m = m | MS_REC;
        }
        if self.bits & FLAG_BIND != 0 {
            m = m | MS_BIND;
        }
        if self.bits & FLAG_SLAVE != 0 {
            m = m | MS_SLAVE;
        }
        if self.bits & FLAG_SHARED != 0 {
            m = m | MS_SHARED;
        }
        if self.bits & FLAG_PRIVATE != 0 {
            m = m | MS_PRIVATE;
        }
        if self.bits & FLAG_UNBINDABLE != 0 {
            m = m | MS_UNBINDABLE;
        }
        m
    }

    /// Check well-formedness; a malformed set is reported with the offending
    /// bits and must never reach the OS call.
    pub fn check(self) -> (r: Result<(), u32>)
        ensures
            r is Ok <==> self.valid(),
            !self.valid() ==> r == Err::<(), u32>(offending_bits(self.bits)),
    {
        if self.bits & !FLAG_ALL != 0 {
            return Err(self.bits & !FLAG_ALL);
        }
        let mut count: u32 = 0;
        if self.bits & FLAG_BIND != 0 {
            count = count + 1;
        }
        if self.bits & FLAG_SLAVE != 0 {
            count = count + 1;
        }
        if self.bits & FLAG_SHARED != 0 {
            count = count + 1;
        }
        if self.bits & FLAG_PRIVATE != 0 {
            count = count + 1;
        }
        if self.bits & FLAG_UNBINDABLE != 0 {
            count = count + 1;
        }
        if count > 1 {
            return Err(self.bits & FLAG_MODES);
        }
        Ok(())
    }
}

impl UmountFlags {
    /// A well-formed unmount tag set: drawn from the closed set of two tags.
    pub open spec fn valid(self) -> bool {
        self.bits & !UMNT_ALL == 0
    }

    /// Translate this tag set into the OS-level flag word. Only `DETACH` has
    /// an OS-level bit here; `NOFOLLOW` is accepted but maps to nothing, as
    /// the platform interface used by the front end exposes no constant for
    /// it.
    pub fn translate(self) -> (r: i32)
        ensures
            r == umount_translate_spec(self.bits),
    {
        if self.bits & UMNT_DETACH != 0 {
            OS_MNT_DETACH
        } else {
            0
        }
    }

    /// Check well-formedness; the offending bits are the unknown ones.
    pub fn check(self) -> (r: Result<(), u32>)
        ensures
            r is Ok <==> self.valid(),
            !self.valid() ==> r == Err::<(), u32>(self.bits & !UMNT_ALL),
    {
        if self.bits & !UMNT_ALL != 0 {
            Err(self.bits & !UMNT_ALL)
        } else {
            Ok(())
        }
    }
}

/// The OS-level flag word that a set of unmount tags denotes.
pub open spec fn umount_translate_spec(bits: u32) -> i32 {
    if bits & UMNT_DETACH != 0 {
        OS_MNT_DETACH
    } else {
        0
    }
}

/// The recursive-slave tag set the pipeline uses to stop propagation.
pub open spec fn spec_rec_slave() -> Option<MountFlags> {
    Option::Some(MountFlags { bits: FLAG_REC | FLAG_SLAVE })
}

/// The recursive-bind tag set the pipeline uses to import directory trees.
pub open spec fn spec_rec_bind() -> Option<MountFlags> {
    Option::Some(MountFlags { bits: FLAG_REC | FLAG_BIND })
}

/// The plain-bind tag set the pipeline uses to turn a directory into a
/// mount point by binding it onto itself.
pub open spec fn spec_bind() -> Option<MountFlags> {
    Option::Some(MountFlags { bits: FLAG_BIND })
}

/// The lazy-unmount tag set the pipeline uses on the still-busy old root.
pub open spec fn spec_detach() -> Option<UmountFlags> {
    Option::Some(UmountFlags { bits: UMNT_DETACH })
}

impl MountFlags {
    /// The recursive-slave tag set, known well formed.
    pub fn rec_slave() -> (f: Option<MountFlags>)
        ensures
            f == spec_rec_slave(),
            (f matches Option::Some(g) && g.valid()),
    {
        proof {
            lemma_pipeline_flag_sets_valid();
        }
        Option::Some(MountFlags { bits: FLAG_REC | FLAG_SLAVE })
    }

    /// The recursive-bind tag set, known well formed.
    pub fn rec_bind() -> (f: Option<MountFlags>)
        ensures
            f == spec_rec_bind(),
            (f matches Option::Some(g) && g.valid()),
    {
        proof {
            lemma_pipeline_flag_sets_valid();
        }
        Option::Some(MountFlags { bits: FLAG_REC | FLAG_BIND })
    }

    /// The plain-bind tag set, known well formed.
    pub fn bind_only() -> (f: Option<MountFlags>)
        ensures
            f == spec_bind(),
            (f matches Option::Some(g) && g.valid()),
    {
        proof {
            lemma_pipeline_flag_sets_valid();
        }
        Option::Some(MountFlags { bits: FLAG_BIND })
    }
}

impl UmountFlags {
    /// The lazy-unmount tag set, known well formed.
    pub fn detach_only() -> (f: Option<UmountFlags>)
        ensures
            f == spec_detach(),
            (f matches Option::Some(g) && g.valid()),
    {
        proof {
            lemma_pipeline_flag_sets_valid();
        }
        Option::Some(UmountFlags { bits: UMNT_DETACH })
    }
}

/// The bitmask translation distributes over unions of disjoint tag sets:
/// translating a union of two non-overlapping sets yields exactly the OS-level
/// bits of the one or-ed with the OS-level bits of the other.
pub proof fn lemma_translate_disjoint_union(a: MountFlags, b: MountFlags)
    requires
        a.bits & b.bits == 0,
    ensures
        translate_spec(a.bits | b.bits) == translate_spec(a.bits) | translate_spec(b.bits),
{
    lemma_translate_disjoint_union_bits(a.bits, b.bits);
}

proof fn lemma_translate_disjoint_union_bits(a: u32, b: u32)
    by (bit_vector)
    requires
        a & b == 0,
    ensures
        translate_spec(a | b) == translate_spec(a) | translate_spec(b),
{
}

/// The tag sets the pipeline itself composes are all well formed.
pub proof fn lemma_pipeline_flag_sets_valid()
    by (bit_vector)
    ensures
        (MountFlags { bits: FLAG_REC | FLAG_SLAVE }).valid(),
        (MountFlags { bits: FLAG_REC | FLAG_BIND }).valid(),
        (MountFlags { bits: FLAG_BIND }).valid(),
        (UmountFlags { bits: UMNT_DETACH }).valid(),
{
}

} // verus!
