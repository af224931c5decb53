//! The pipeline's error taxonomy, and the classification of raw OS return
//! values.
//!
//! Every stage reports failure as a typed value; the driver is the single
//! point that decides whether a failure aborts the run. No stage swallows an
//! error.

use vstd::prelude::*;
use vstd::string::StringExecFns;

verus! {

/// Which kind of filesystem operation a failed step was performing.
#[derive(Clone, Copy, PartialEq, Eq, Structural, Debug)]
pub enum OpKind {
    /// A mount or propagation-change call.
    Mount,
    /// An unmount call.
    Umount,
    /// Creation of a directory entry.
    MakeDir,
    /// Removal of a directory entry.
    RemoveDir,
    /// A change of the working directory.
    ChangeDir,
}

/// A typed pipeline failure. Each variant carries enough to identify which
/// of potentially dozens of operations failed and why.
#[derive(PartialEq, Eq, Debug)]
pub enum PipelineError {
    /// Namespace detachment was refused by the OS (or requested twice);
    /// almost always a missing privilege. Fatal, never retried.
    Privilege { os_code: i32 },
    /// A flag set held bits outside the closed tag set, or contradictory
    /// propagation-mode tags. A programming error, surfaced before any OS
    /// call is made.
    InvalidFlags { bits: u32 },
    /// A mount, unmount or directory operation failed, identified by its
    /// kind, its source and target paths, and the OS error code.
    Mount { op: OpKind, source: String, target: String, os_code: i32 },
    /// The caller-supplied rootfs path does not exist or cannot be
    /// canonicalized; surfaced before any privileged operation runs.
    PathResolution { path: String },
    /// The atomic root-pivot call failed; the process must exit and let the
    /// namespace teardown discard the mounts already in place.
    Switch { new_root: String, put_old: String, os_code: i32 },
    /// The final, best-effort removal of the old root's placeholder
    /// directory failed after the switch had already succeeded.
    CleanupWarning { path: String, os_code: i32 },
}

/// The short name of an operation kind, as it appears in a failure report.
pub open spec fn spec_op_name(op: OpKind) -> Seq<char> {
    match op {
        OpKind::Mount => "mount"@,
        OpKind::Umount => "umount"@,
        OpKind::MakeDir => "mkdir"@,
        OpKind::RemoveDir => "rmdir"@,
        OpKind::ChangeDir => "chdir"@,
    }
}

/// The user-visible description of a failure: which operation failed, and on
/// which paths. The OS error code travels beside it in the typed value.
pub open spec fn spec_describe(e: PipelineError) -> Seq<char> {
    match e {
        PipelineError::Privilege { .. } => "cannot detach mount namespace"@,
        PipelineError::InvalidFlags { .. } => "unexpected mount flags"@,
        PipelineError::Mount { op, source, target, .. } => spec_op_name(op) + " failed: "@
            + source@ + " -> "@ + target@,
        PipelineError::PathResolution { path } => "cannot resolve path: "@ + path@,
        PipelineError::Switch { new_root, put_old, .. } => "cannot pivot root to "@ + new_root@
            + " with old root at "@ + put_old@,
        PipelineError::CleanupWarning { path, .. } => "cannot remove old root at "@ + path@,
    }
}

/// The short name of an operation kind.
pub fn op_name(op: OpKind) -> (r: &'static str)
    ensures
        r@ == spec_op_name(op),
{
    match op {
        OpKind::Mount => "mount",
        OpKind::Umount => "umount",
        OpKind::MakeDir => "mkdir",
        OpKind::RemoveDir => "rmdir",
        OpKind::ChangeDir => "chdir",
    }
}

impl PipelineError {
    /// Render the user-visible description of this failure.
    pub fn describe(&self) -> (r: String)
        ensures
            r@ == spec_describe(*self),
    {
        match self {
            PipelineError::Privilege { .. } => "cannot detach mount namespace".to_owned(),
            PipelineError::InvalidFlags { .. } => "unexpected mount flags".to_owned(),
            PipelineError::Mount { op, source, target, .. } => {
                let mut s: String = op_name(*op).to_owned();
                s.append(" failed: ");
                s.append(source.as_str());
                s.append(" -> ");
                s.append(target.as_str());
                s
            },
            PipelineError::PathResolution { path } => {
                let mut s: String = "cannot resolve path: ".to_owned();
                s.append(path.as_str());
                s
            },
            PipelineError::Switch { new_root, put_old, .. } => {
                let mut s: String = "cannot pivot root to ".to_owned();
                s.append(new_root.as_str());
                s.append(" with old root at ");
                s.append(put_old.as_str());
                s
            },
            PipelineError::CleanupWarning { path, .. } => {
                let mut s: String = "cannot remove old root at ".to_owned();
                s.append(path.as_str());
                s
            },
        }
    }
}

/// Classify a raw OS call result: the expected value means success, anything
/// else reports the error code the caller read from the OS.
pub fn libc_result(res: i64, happy: i64, os_code: i32) -> (r: Result<i64, i32>)
    ensures
        res == happy ==> r == Ok::<i64, i32>(res),
        res != happy ==> r == Err::<i64, i32>(os_code),
{
    if res != happy {
        Err(os_code)
    } else {
        Ok(res)
    }
}

} // verus!
