//! The pipeline driver: path-resolution gating, the one full ordered plan,
//! the single failure-classification point, and the hand-off to the process
//! launcher.
//!
//! Control flow is strictly linear. The front end resolves the rootfs path
//! on the original filesystem view and feeds the outcome to
//! [`check_resolution`]; only a successful resolution yields a rootfs for
//! [`full_plan`], so no privileged operation is ever described — let alone
//! performed — for an unresolved path. The front end then performs the plan
//! step by step, stopping at the first failure that
//! [`step_failure`] classifies as fatal; there is no rollback, because the
//! detached namespace is discarded with the process anyway.

use vstd::prelude::*;
use vstd::assert_seqs_equal;
use crate::builder::{scratch_root_steps, spec_host_dirs, spec_import_pair, spec_scratch_plan};
use crate::error::{OpKind, PipelineError};
use crate::flags::{FLAG_BIND, lemma_pipeline_flag_sets_valid, spec_rec_bind, spec_rec_slave};
use crate::request::{mount_mask_spec, umount_mask_spec};
use crate::step::{Step, StepSpec, spec_mount, step_views};
use crate::switcher::{RootSwitcher, spec_cleanup_plan, spec_old_root, spec_switch_plan};

verus! {

/// The conventional working directory of the launched workload, entered
/// once the switch has fully completed.
pub open spec fn spec_final_cwd() -> Seq<char> {
    "/mnt"@
}

/// Gate the pipeline on path resolution: a resolved, canonical rootfs path
/// passes through; an unresolvable one is the pipeline's first and only
/// answer, before anything privileged is described or performed.
pub fn check_resolution(rootfs_arg: &str, resolved: Option<String>) -> (r: Result<
    String,
    PipelineError,
>)
    ensures
        r is Ok <==> resolved is Some,
        (resolved matches Option::Some(p) ==> r == Ok::<String, PipelineError>(p)),
        (resolved is None ==> (r matches Err(e) && e matches PipelineError::PathResolution { path }
            && path@ == rootfs_arg@)),
{
    match resolved {
        Option::Some(p) => Ok(p),
        Option::None => Err(PipelineError::PathResolution { path: rootfs_arg.to_owned() }),
    }
}

/// The whole pipeline as one ordered sequence: the scratch-root build, the
/// switch, the cleanup, and the final change of working directory.
pub open spec fn spec_full_plan(rootfs: Seq<char>, scratch: Seq<char>) -> Seq<StepSpec> {
    spec_scratch_plan(rootfs, scratch) + spec_switch_plan(scratch) + spec_cleanup_plan(scratch)
        + seq![StepSpec::ChangeDir { path: spec_final_cwd() }]
}

/// Build the whole ordered plan for a resolved rootfs path and a scratch
/// directory.
pub fn full_plan(rootfs: &str, scratch: &str) -> (steps: Vec<Step>)
    ensures
        step_views(steps@) =~= spec_full_plan(rootfs@, scratch@),
{
    let mut steps: Vec<Step> = scratch_root_steps(rootfs, scratch);
    let mut switcher: RootSwitcher = RootSwitcher::new(scratch.to_owned());
    let mut batch: Vec<Step> = switcher.switch_steps();
    steps.append(&mut batch);
    let mut batch: Vec<Step> = switcher.cleanup_steps();
    steps.append(&mut batch);
    steps.push(Step::ChangeDir { path: "/mnt".to_owned() });
    proof {
        assert_seqs_equal!(step_views(steps@), spec_full_plan(rootfs@, scratch@));
    }
    steps
}

/// Classify a failed step: the typed error that identifies the operation,
/// its paths and the OS error code, and whether the failure aborts the run.
/// Only the best-effort removal of the old root's placeholder survives as a
/// warning; every other failure is fatal.
pub fn step_failure(step: &Step, os_code: i32) -> (r: (PipelineError, bool))
    ensures
        (step@ matches StepSpec::Mount { source, target, .. } ==> r.1 && (r.0
            matches PipelineError::Mount { op, source: es, target: et, os_code: c } && op
            == OpKind::Mount && es@ == source && et@ == target && c == os_code)),
        (step@ matches StepSpec::Umount { target, .. } ==> r.1 && (r.0
            matches PipelineError::Mount { op, source: es, target: et, os_code: c } && op
            == OpKind::Umount && es@ == Seq::<char>::empty() && et@ == target && c == os_code)),
        (step@ matches StepSpec::MakeDir { path } ==> r.1 && (r.0 matches PipelineError::Mount {
            op,
            source: es,
            target: et,
            os_code: c,
        } && op == OpKind::MakeDir && es@ == Seq::<char>::empty() && et@ == path && c == os_code)),
        (step@ matches StepSpec::RemoveDir { path, best_effort: false } ==> r.1 && (r.0
            matches PipelineError::Mount { op, source: es, target: et, os_code: c } && op
            == OpKind::RemoveDir && es@ == Seq::<char>::empty() && et@ == path && c == os_code)),
        (step@ matches StepSpec::RemoveDir { path, best_effort: true } ==> !r.1 && (r.0
            matches PipelineError::CleanupWarning { path: ep, os_code: c } && ep@ == path && c
            == os_code)),
        (step@ matches StepSpec::PivotRoot { new_root, put_old } ==> r.1 && (r.0
            matches PipelineError::Switch { new_root: en, put_old: ep, os_code: c } && en@
            == new_root && ep@ == put_old && c == os_code)),
        (step@ matches StepSpec::ChangeDir { path } ==> r.1 && (r.0 matches PipelineError::Mount {
            op,
            source: es,
            target: et,
            os_code: c,
        } && op == OpKind::ChangeDir && es@ == Seq::<char>::empty() && et@ == path && c
            == os_code)),
{
    match step {
        Step::Mount(req) => (
            PipelineError::Mount {
                op: OpKind::Mount,
                source: req.source.clone(),
                target: req.target.clone(),
                os_code,
            },
            true,
        ),
        Step::Umount(req) => (
            PipelineError::Mount {
                op: OpKind::Umount,
                source: String::new(),
                target: req.target.clone(),
                os_code,
            },
            true,
        ),
        Step::MakeDir { path } => (
            PipelineError::Mount {
                op: OpKind::MakeDir,
                source: String::new(),
                target: path.clone(),
                os_code,
            },
            true,
        ),
        Step::RemoveDir { path, best_effort } => {
            if *best_effort {
                (PipelineError::CleanupWarning { path: path.clone(), os_code }, false)
            } else {
                (
                    PipelineError::Mount {
                        op: OpKind::RemoveDir,
                        source: String::new(),
                        target: path.clone(),
                        os_code,
                    },
                    true,
                )
            }
        },
        Step::PivotRoot { new_root, put_old } => (
            PipelineError::Switch {
                new_root: new_root.clone(),
                put_old: put_old.clone(),
                os_code,
            },
            true,
        ),
        Step::ChangeDir { path } => (
            PipelineError::Mount {
                op: OpKind::ChangeDir,
                source: String::new(),
                target: path.clone(),
                os_code,
            },
            true,
        ),
    }
}

/// A step's flag sets are well formed and its OS-level bits are their exact
/// translation.
pub open spec fn step_flags_valid(s: StepSpec) -> bool {
    match s {
        StepSpec::Mount { flags, os_flags, .. } => (flags matches Option::Some(f) ==> f.valid())
            && os_flags == mount_mask_spec(flags),
        StepSpec::Umount { flags, os_flags, .. } => (flags matches Option::Some(f) ==> f.valid())
            && os_flags == umount_mask_spec(flags),
        _ => true,
    }
}

/// Every flag set the pipeline composes is drawn from the closed tag set,
/// carries at most one propagation-mode tag, and is carried beside its exact
/// OS-level translation: the plan can never trip the propagation primitive's
/// flag rejection.
pub proof fn lemma_plan_flag_sets_valid(rootfs: Seq<char>, scratch: Seq<char>)
    ensures
        forall|i: int| #![auto]
            0 <= i < spec_full_plan(rootfs, scratch).len() ==> step_flags_valid(
                spec_full_plan(rootfs, scratch)[i],
            ),
{
    lemma_pipeline_flag_sets_valid();
}

/// A step is the lazy or plain unmount of the relocated old root.
pub open spec fn unmounts_old_root(s: StepSpec) -> bool {
    s matches StepSpec::Umount { target, .. } && target == spec_old_root()
}

/// A step forces the relocated old root to recursive slave propagation.
pub open spec fn makes_old_root_slave(s: StepSpec) -> bool {
    s == spec_mount("none"@, spec_old_root(), ""@, spec_rec_slave())
}

/// Isolation guard: wherever the plan unmounts the relocated old root, an
/// earlier step of the same plan has already forced that mount to recursive
/// slave propagation — so the unmount cannot propagate back into the host's
/// own view of the filesystem, which shared propagation would make
/// bidirectional. (A scratch directory path is never empty; the hypothesis
/// only excludes the degenerate plan built for one.)
pub proof fn lemma_old_root_slave_before_unmount(rootfs: Seq<char>, scratch: Seq<char>)
    requires
        scratch.len() > 0,
    ensures
        forall|j: int|
            0 <= j < spec_full_plan(rootfs, scratch).len() && unmounts_old_root(
                #[trigger] spec_full_plan(rootfs, scratch)[j],
            ) ==> exists|i: int|
                0 <= i < j && makes_old_root_slave(#[trigger] spec_full_plan(rootfs, scratch)[i]),
{
    let plan = spec_full_plan(rootfs, scratch);
    assert forall|j: int| 0 <= j < plan.len() && unmounts_old_root(plan[j]) implies exists|i: int|
        0 <= i < j && makes_old_root_slave(#[trigger] plan[i]) by {
        assert(makes_old_root_slave(plan[15]));
        assert((spec_old_root() + scratch).len() != spec_old_root().len());
        assert(j == 16);
    }
}

/// Switch guard: every root pivot in the plan pivots to the scratch root,
/// and an earlier step of the same plan has already recursively bound the
/// caller's rootfs onto that scratch root — the new root the process ends up
/// in is the caller's tree, never the bare scratch directory.
pub proof fn lemma_rootfs_bound_before_pivot(rootfs: Seq<char>, scratch: Seq<char>)
    ensures
        forall|j: int|
            0 <= j < spec_full_plan(rootfs, scratch).len() && (#[trigger] spec_full_plan(
                rootfs,
                scratch,
            )[j] matches StepSpec::PivotRoot { new_root, .. }) ==> spec_full_plan(
                rootfs,
                scratch,
            )[j]->PivotRoot_new_root == scratch && exists|i: int|
                0 <= i < j && #[trigger] spec_full_plan(rootfs, scratch)[i] == spec_mount(
                    rootfs,
                    scratch,
                    ""@,
                    spec_rec_bind(),
                ),
{
    let plan = spec_full_plan(rootfs, scratch);
    assert forall|j: int|
        0 <= j < plan.len() && (plan[j] matches StepSpec::PivotRoot {
            new_root,
            ..
        }) implies plan[j]->PivotRoot_new_root == scratch && exists|i: int|
        0 <= i < j && #[trigger] plan[i] == spec_mount(rootfs, scratch, ""@, spec_rec_bind()) by {
        assert(j == 12);
        assert(plan[2] == spec_mount(rootfs, scratch, ""@, spec_rec_bind()));
    }
}

/// A step bind-mounts something onto the given target path.
pub open spec fn binds_onto(s: StepSpec, target: Seq<char>) -> bool {
    s matches StepSpec::Mount { target: t, flags, .. } && t == target && (flags
        matches Option::Some(f) && f.bits & FLAG_BIND != 0)
}

/// New-root fidelity: the plan recursively binds the caller's rootfs onto
/// the scratch root, then — up to and including the pivot that installs the
/// scratch root as the new root — never binds anything else onto it. What
/// the process ends up rooted in is therefore exactly the caller's tree as
/// bound by that one step.
pub proof fn lemma_rootfs_is_last_bound_onto_scratch(rootfs: Seq<char>, scratch: Seq<char>)
    ensures
        spec_full_plan(rootfs, scratch)[2] == spec_mount(rootfs, scratch, ""@, spec_rec_bind()),
        binds_onto(spec_full_plan(rootfs, scratch)[2], scratch),
        forall|m: int|
            2 < m < 12 ==> !binds_onto(#[trigger] spec_full_plan(rootfs, scratch)[m], scratch),
        spec_full_plan(rootfs, scratch)[12] == (StepSpec::PivotRoot {
            new_root: scratch,
            put_old: scratch + spec_old_root(),
        }),
{
    let plan = spec_full_plan(rootfs, scratch);
    assert((crate::flags::FLAG_REC | FLAG_BIND) & FLAG_BIND != 0) by (bit_vector);
    assert((crate::flags::FLAG_REC | crate::flags::FLAG_SLAVE) & FLAG_BIND == 0) by (bit_vector);
    reveal_strlit("/dev");
    reveal_strlit("/sys");
    reveal_strlit("/proc");
    reveal_strlit("/tmp");
    assert forall|m: int| 2 < m < 12 implies !binds_onto(plan[m], scratch) by {
        assert((scratch + "/dev"@).len() == scratch.len() + 4);
        assert((scratch + "/sys"@).len() == scratch.len() + 4);
        assert((scratch + "/proc"@).len() == scratch.len() + 5);
        assert((scratch + "/tmp"@).len() == scratch.len() + 4);
    }
}

/// Import fidelity: each host special directory is imported by its own
/// adjacent bind-then-slave pair, and the three pairs stand whole in the
/// plan, never interleaved with one another.
pub proof fn lemma_host_imports_whole(rootfs: Seq<char>, scratch: Seq<char>)
    ensures
        forall|k: int|
            0 <= k < spec_host_dirs().len() ==> #[trigger] spec_full_plan(
                rootfs,
                scratch,
            ).subrange(4 + 2 * k, 6 + 2 * k) =~= spec_import_pair(scratch, spec_host_dirs()[k]),
{
    let plan = spec_full_plan(rootfs, scratch);
    assert forall|k: int| 0 <= k < spec_host_dirs().len() implies #[trigger] plan.subrange(
        4 + 2 * k,
        6 + 2 * k,
    ) =~= spec_import_pair(scratch, spec_host_dirs()[k]) by {
        if k == 0 {
            assert(plan.subrange(4, 6) =~= spec_import_pair(scratch, "/dev"@));
        } else if k == 1 {
            assert(plan.subrange(6, 8) =~= spec_import_pair(scratch, "/sys"@));
        } else {
            assert(plan.subrange(8, 10) =~= spec_import_pair(scratch, "/proc"@));
        }
    }
}

/// What the process launcher is handed once the pipeline has completed: the
/// target program, its arguments passed through unmodified, and the policy
/// that the launched process inherits no environment.
pub struct Launch {
    pub program: String,
    pub args: Vec<String>,
    pub clear_env: bool,
}

/// Prepare the launcher hand-off from the caller's command vector: the first
/// entry is the program, the rest are its arguments in order, and the
/// environment is always cleared.
pub fn prepare_launch(command: &Vec<String>) -> (l: Launch)
    requires
        command@.len() >= 1,
    ensures
        l.program == command@[0],
        l.args@ =~= command@.skip(1),
        l.clear_env,
{
    let program: String = command[0].clone();
    let mut args: Vec<String> = Vec::new();
    let mut i: usize = 1;
    while i < command.len()
        invariant
            1 <= i <= command@.len(),
            args@.len() == i - 1,
            forall|j: int| 0 <= j < args@.len() ==> args@[j] == command@[j + 1],
        decreases command@.len() - i,
    {
        args.push(command[i].clone());
        i = i + 1;
    }
    Launch { program, args, clear_env: true }
}

} // verus!
