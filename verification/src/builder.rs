//! The scratch-root builder: the ordered mount steps that turn an empty
//! scratch directory into a fully formed new root.
//!
//! The order is load-bearing and each step's success is a precondition for
//! the next: first the whole mount table is made a recursive propagation
//! slave so nothing built here leaks to the host; then the scratch directory
//! is bound onto itself to become a mount point; then the caller's rootfs is
//! recursively bound onto it and made a recursive slave; then each host
//! special directory is imported as its own bind-then-slave pair; and last a
//! fresh writable filesystem is mounted at the scratch space that will hold
//! the old root during the switch.
//!
//! Policy choice: the mount table is made recursively *slave* (not shared)
//! before building, and nothing is marked unbindable; this matches a build
//! whose imported trees must receive host changes but never send any back.

use vstd::prelude::*;
use vstd::assert_seqs_equal;
use crate::flags::MountFlags;
use crate::flags::{spec_bind, spec_rec_bind, spec_rec_slave};
use crate::step::{Step, StepSpec, join_path, mount_step, spec_mount, step_views};

verus! {

/// The bind-then-slave pair that imports one host directory under the
/// scratch root: bind the host tree recursively at the relocated path, then
/// make that mount a recursive slave so changes under the new root cannot
/// propagate back out.
pub open spec fn spec_import_pair(scratch: Seq<char>, host_dir: Seq<char>) -> Seq<StepSpec> {
    seq![
        spec_mount(host_dir, scratch + host_dir, ""@, spec_rec_bind()),
        spec_mount("none"@, scratch + host_dir, ""@, spec_rec_slave()),
    ]
}

/// The host special directories imported into every new root: the device
/// tree, the kernel tree and the process-info tree.
pub open spec fn spec_host_dirs() -> Seq<Seq<char>> {
    seq!["/dev"@, "/sys"@, "/proc"@]
}

/// The full, ordered scratch-root build: eleven mount steps, as described at
/// the module head.
pub open spec fn spec_scratch_plan(rootfs: Seq<char>, scratch: Seq<char>) -> Seq<StepSpec> {
    seq![
        spec_mount("none"@, "/"@, ""@, spec_rec_slave()),
        spec_mount(scratch, scratch, ""@, spec_bind()),
        spec_mount(rootfs, scratch, ""@, spec_rec_bind()),
        spec_mount("none"@, scratch, ""@, spec_rec_slave()),
    ] + spec_import_pair(scratch, "/dev"@) + spec_import_pair(scratch, "/sys"@)
        + spec_import_pair(scratch, "/proc"@) + seq![
        spec_mount("none"@, scratch + "/tmp"@, "tmpfs"@, Option::None),
    ]
}

/// Build the import pair for one host directory.
pub fn import_host_dir_steps(scratch: &str, host_dir: &str) -> (steps: Vec<Step>)
    ensures
        step_views(steps@) =~= spec_import_pair(scratch@, host_dir@),
{
    let target: String = join_path(scratch, host_dir);
    let mut steps: Vec<Step> = Vec::new();
    steps.push(mount_step(host_dir, target.as_str(), "", MountFlags::rec_bind()));
    steps.push(mount_step("none", target.as_str(), "", MountFlags::rec_slave()));
    proof {
        assert_seqs_equal!(step_views(steps@), spec_import_pair(scratch@, host_dir@));
    }
    steps
}

/// Build the ordered scratch-root plan for the given (already canonical)
/// rootfs path and scratch directory.
pub fn scratch_root_steps(rootfs: &str, scratch: &str) -> (steps: Vec<Step>)
    ensures
        step_views(steps@) =~= spec_scratch_plan(rootfs@, scratch@),
{
    let mut steps: Vec<Step> = Vec::new();
    steps.push(mount_step("none", "/", "", MountFlags::rec_slave()));
    steps.push(mount_step(scratch, scratch, "", MountFlags::bind_only()));
    steps.push(mount_step(rootfs, scratch, "", MountFlags::rec_bind()));
    steps.push(mount_step("none", scratch, "", MountFlags::rec_slave()));
    let mut imported: Vec<Step> = import_host_dir_steps(scratch, "/dev");
    steps.append(&mut imported);
    let mut imported: Vec<Step> = import_host_dir_steps(scratch, "/sys");
    steps.append(&mut imported);
    let mut imported: Vec<Step> = import_host_dir_steps(scratch, "/proc");
    steps.append(&mut imported);
    let tmp_target: String = join_path(scratch, "/tmp");
    steps.push(mount_step("none", tmp_target.as_str(), "tmpfs", Option::None));
    proof {
        assert_seqs_equal!(step_views(steps@), spec_scratch_plan(rootfs@, scratch@));
    }
    steps
}

} // verus!
