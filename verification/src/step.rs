//! Plan steps: the plain values in which the pipeline fixes every operation
//! it wants performed, in order, and their mathematical model.
//!
//! The unverified front end walks a `Vec<Step>` and performs each step as a
//! blocking OS call; everything about what the steps are and in what order
//! they come is decided and proved here.

use vstd::prelude::*;
use vstd::string::StringExecFns;
use crate::error::PipelineError;
use crate::flags::{MountFlags, UmountFlags};
use crate::request::{MountRequest, UmountRequest, mount_mask_spec, umount_mask_spec};

verus! {

/// One operation of the pipeline, ready to perform.
pub enum Step {
    /// A mount or propagation-change call, already validated and translated.
    Mount(MountRequest),
    /// An unmount call, already validated and translated.
    Umount(UmountRequest),
    /// Create a directory entry.
    MakeDir { path: String },
    /// Remove a directory entry. A best-effort removal that fails is logged
    /// and the run continues; any other failure aborts the run.
    RemoveDir { path: String, best_effort: bool },
    /// The atomic root pivot: the process's root moves to `new_root` and the
    /// previous root becomes reachable only under `put_old`.
    PivotRoot { new_root: String, put_old: String },
    /// Change the process's working directory.
    ChangeDir { path: String },
}

/// The mathematical model of a step: paths as character sequences, flag sets
/// and translated OS-level bits as plain values.
#[verifier::ext_equal]
pub enum StepSpec {
    Mount {
        source: Seq<char>,
        target: Seq<char>,
        fstype: Seq<char>,
        flags: Option<MountFlags>,
        os_flags: u64,
    },
    Umount { target: Seq<char>, flags: Option<UmountFlags>, os_flags: i32 },
    MakeDir { path: Seq<char> },
    RemoveDir { path: Seq<char>, best_effort: bool },
    PivotRoot { new_root: Seq<char>, put_old: Seq<char> },
    ChangeDir { path: Seq<char> },
}

impl View for Step {
    type V = StepSpec;

    open spec fn view(&self) -> StepSpec {
        match self {
            Step::Mount(req) => StepSpec::Mount {
                source: req.source@,
                target: req.target@,
                fstype: req.fstype@,
                flags: req.flags,
                os_flags: req.os_flags,
            },
            Step::Umount(req) => StepSpec::Umount {
                target: req.target@,
                flags: req.flags,
                os_flags: req.os_flags,
            },
            Step::MakeDir { path } => StepSpec::MakeDir { path: path@ },
            Step::RemoveDir { path, best_effort } => StepSpec::RemoveDir {
                path: path@,
                best_effort: *best_effort,
            },
            Step::PivotRoot { new_root, put_old } => StepSpec::PivotRoot {
                new_root: new_root@,
                put_old: put_old@,
            },
            Step::ChangeDir { path } => StepSpec::ChangeDir { path: path@ },
        }
    }
}

/// The models of a sequence of steps, in order.
pub open spec fn step_views(v: Seq<Step>) -> Seq<StepSpec> {
    v.map_values(|s: Step| s@)
}

/// The model of a validated mount step for the given arguments.
pub open spec fn spec_mount(
    source: Seq<char>,
    target: Seq<char>,
    fstype: Seq<char>,
    flags: Option<MountFlags>,
) -> StepSpec {
    StepSpec::Mount { source, target, fstype, flags, os_flags: mount_mask_spec(flags) }
}

/// The model of a validated unmount step for the given arguments.
pub open spec fn spec_umount(target: Seq<char>, flags: Option<UmountFlags>) -> StepSpec {
    StepSpec::Umount { target, flags, os_flags: umount_mask_spec(flags) }
}

/// Join a path under a base directory by plain concatenation: the suffix is
/// an absolute path and the base carries no trailing separator, so the
/// concatenation is exactly the suffix relocated under the base.
pub fn join_path(base: &str, suffix: &str) -> (r: String)
    ensures
        r@ == base@ + suffix@,
{
    let mut s: String = base.to_owned();
    s.append(suffix);
    s
}

/// Build a validated mount step. The flag set must be well formed, which
/// every flag set the pipeline composes is; the construction therefore
/// cannot be refused.
pub fn mount_step(source: &str, target: &str, fstype: &str, flags: Option<MountFlags>) -> (s: Step)
    requires
        flags matches Option::Some(f) ==> f.valid(),
    ensures
        s@ == spec_mount(source@, target@, fstype@, flags),
{
    let r: Result<MountRequest, PipelineError> = MountRequest::new(
        source.to_owned(),
        target.to_owned(),
        fstype.to_owned(),
        flags,
    );
    match r {
        Ok(req) => Step::Mount(req),
        Err(_) => {
            proof {
                assert(false);
            }
            vstd::pervasive::unreached()
        },
    }
}

/// Build a validated unmount step; as with mount steps, the pipeline only
/// composes well-formed unmount flag sets.
pub fn umount_step(target: &str, flags: Option<UmountFlags>) -> (s: Step)
    requires
        flags matches Option::Some(f) ==> f.valid(),
    ensures
        s@ == spec_umount(target@, flags),
{
    let r: Result<UmountRequest, PipelineError> = UmountRequest::new(target.to_owned(), flags);
    match r {
        Ok(req) => Step::Umount(req),
        Err(_) => {
            proof {
                assert(false);
            }
            vstd::pervasive::unreached()
        },
    }
}

} // verus!
