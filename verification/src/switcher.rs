//! The root switcher: the atomic old-root/new-root exchange and the cleanup
//! that removes the old root from the new view.
//!
//! The switcher is a three-phase machine. Before the switch, the placeholder
//! directory for the old root is created under the new root's writable
//! scratch space and the pivot is performed. After the switch, the cleanup
//! first unmounts the scratch mount's own self-bind — now visible inside the
//! relocated old root — and removes its directory entry; then it forces the
//! relocated old root to recursive slave propagation *before* unmounting it
//! (unmounting a still-shared old root would propagate the unmount to the
//! host's own view of the same filesystem); the unmount itself is lazy,
//! because the old root is still busy at that moment; and the placeholder's
//! final removal is best-effort, since a lazily detached mount may keep the
//! directory busy for a while after the switch has already fully succeeded.

use vstd::prelude::*;
use vstd::assert_seqs_equal;
use crate::flags::{MountFlags, UmountFlags};
use crate::flags::{spec_detach, spec_rec_slave};
use crate::step::{Step, StepSpec, join_path, mount_step, spec_mount, spec_umount, umount_step};
use crate::step::step_views;

verus! {

/// Where the old root is reachable after the pivot, and the path (relative
/// to the scratch root before the pivot) at which the pivot deposits it.
pub open spec fn spec_old_root() -> Seq<char> {
    "/tmp/old-root"@
}

/// Phases of the switch: the pivot has not happened, the pivot has happened,
/// or the old root has been cleaned out of the new view.
#[derive(Clone, Copy, PartialEq, Eq, Structural, Debug)]
pub enum SwitchPhase {
    PreSwitch,
    Switched,
    Cleaned,
}

/// The root switcher: owns the scratch-root path and refuses its two step
/// batches in any order but pre-switch, then cleanup.
pub struct RootSwitcher {
    pub phase: SwitchPhase,
    pub scratch: String,
}

/// The pre-switch batch: create the old-root placeholder under the new
/// root's scratch space, then pivot the root atomically. The placeholder
/// lies on the freshly mounted scratch-space filesystem under the new root,
/// which is what the pivot call requires of it here; no self-bind of the
/// placeholder precedes the pivot in this policy.
pub open spec fn spec_switch_plan(scratch: Seq<char>) -> Seq<StepSpec> {
    seq![
        StepSpec::MakeDir { path: scratch + spec_old_root() },
        StepSpec::PivotRoot { new_root: scratch, put_old: scratch + spec_old_root() },
    ]
}

/// The post-switch cleanup batch, in the order the module head explains:
/// unmount and remove the relocated scratch self-bind, force the relocated
/// old root to recursive slave, lazily unmount it, and best-effort-remove
/// its placeholder directory.
pub open spec fn spec_cleanup_plan(scratch: Seq<char>) -> Seq<StepSpec> {
    seq![
        spec_umount(spec_old_root() + scratch, Option::None),
        StepSpec::RemoveDir { path: spec_old_root() + scratch, best_effort: false },
        spec_mount("none"@, spec_old_root(), ""@, spec_rec_slave()),
        spec_umount(spec_old_root(), spec_detach()),
        StepSpec::RemoveDir { path: spec_old_root(), best_effort: true },
    ]
}

impl RootSwitcher {
    /// A switcher for the given scratch root, ready to switch.
    pub fn new(scratch: String) -> (s: RootSwitcher)
        ensures
            s.phase == SwitchPhase::PreSwitch,
            s.scratch@ == scratch@,
    {
        RootSwitcher { phase: SwitchPhase::PreSwitch, scratch }
    }

    /// The pre-switch batch; only available once, before the switch.
    pub fn switch_steps(&mut self) -> (steps: Vec<Step>)
        requires
            old(self).phase == SwitchPhase::PreSwitch,
        ensures
            final(self).phase == SwitchPhase::Switched,
            final(self).scratch == old(self).scratch,
            step_views(steps@) =~= spec_switch_plan(old(self).scratch@),
    {
        let put_old: String = join_path(self.scratch.as_str(), "/tmp/old-root");
        let new_root: String = self.scratch.clone();
        let mut steps: Vec<Step> = Vec::new();
        steps.push(Step::MakeDir { path: put_old.clone() });
        steps.push(Step::PivotRoot { new_root, put_old });
        self.phase = SwitchPhase::Switched;
        proof {
            assert_seqs_equal!(step_views(steps@), spec_switch_plan(old(self).scratch@));
        }
        steps
    }

    /// The cleanup batch; only available once, after the switch.
    pub fn cleanup_steps(&mut self) -> (steps: Vec<Step>)
        requires
            old(self).phase == SwitchPhase::Switched,
        ensures
            final(self).phase == SwitchPhase::Cleaned,
            final(self).scratch == old(self).scratch,
            step_views(steps@) =~= spec_cleanup_plan(old(self).scratch@),
    {
        let scratch_in_old: String = join_path("/tmp/old-root", self.scratch.as_str());
        let mut steps: Vec<Step> = Vec::new();
        steps.push(umount_step(scratch_in_old.as_str(), Option::None));
        steps.push(Step::RemoveDir { path: scratch_in_old, best_effort: false });
        steps.push(mount_step("none", "/tmp/old-root", "", MountFlags::rec_slave()));
        steps.push(umount_step("/tmp/old-root", UmountFlags::detach_only()));
        steps.push(Step::RemoveDir { path: "/tmp/old-root".to_owned(), best_effort: true });
        self.phase = SwitchPhase::Cleaned;
        proof {
            assert_seqs_equal!(step_views(steps@), spec_cleanup_plan(old(self).scratch@));
        }
        steps
    }
}

} // verus!
