use rootswitch::detacher::{DetachRequest, NamespaceDetacher, OS_CLONE_NEWNS, detach_failure};
use rootswitch::driver::{check_resolution, full_plan, prepare_launch, step_failure};
use rootswitch::error::{OpKind, PipelineError, libc_result};
use rootswitch::flags::{FLAG_REC, FLAG_SLAVE, MountFlags, UMNT_DETACH, UmountFlags};
use rootswitch::request::{MountRequest, UmountRequest};
use rootswitch::step::Step;

#[test]
fn resolution_success_passes_the_canonical_path_through() {
    let r = check_resolution("rootfs", Some("/abs/rootfs".to_string()));
    assert_eq!(r, Ok("/abs/rootfs".to_string()));
}

#[test]
fn resolution_failure_aborts_before_anything_privileged() {
    // the rootfs argument does not resolve: the pipeline's only answer is the
    // path-resolution error, and no detach request is ever asked for
    let mut detacher = NamespaceDetacher::new();
    let r = check_resolution("/no/such/path", None);
    match r {
        Err(PipelineError::PathResolution { path }) => assert_eq!(path, "/no/such/path"),
        other => panic!("expected PathResolution, got {:?}", other),
    }
    assert!(!detacher.detached);
    // keep the borrow checker honest about the detacher being usable here
    let _ = &mut detacher;
}

#[test]
fn detaching_twice_is_a_rejected_no_op() {
    let mut detacher = NamespaceDetacher::new();
    let first = detacher.detach_mount_namespace();
    assert_eq!(first, Some(DetachRequest { os_flags: OS_CLONE_NEWNS }));
    assert_eq!(OS_CLONE_NEWNS, libc::CLONE_NEWNS);
    assert!(detacher.detached);

    // a second ask within the same run hands out nothing and changes nothing
    let second = detacher.detach_mount_namespace();
    assert_eq!(second, None);
    assert!(detacher.detached);
    let third = detacher.detach_mount_namespace();
    assert_eq!(third, None);
}

#[test]
fn detach_refusal_is_a_privilege_error() {
    assert_eq!(detach_failure(1), PipelineError::Privilege { os_code: 1 });
}

#[test]
fn mount_failures_identify_the_operation() {
    let req = MountRequest::new(
        "/r".to_string(),
        "/tmp/scr".to_string(),
        "".to_string(),
        Some(MountFlags { bits: FLAG_REC | FLAG_SLAVE }),
    )
    .unwrap();
    let (err, fatal) = step_failure(&Step::Mount(req), 13);
    assert!(fatal);
    assert_eq!(
        err,
        PipelineError::Mount {
            op: OpKind::Mount,
            source: "/r".to_string(),
            target: "/tmp/scr".to_string(),
            os_code: 13,
        }
    );

    let ureq = UmountRequest::new(
        "/tmp/old-root".to_string(),
        Some(UmountFlags { bits: UMNT_DETACH }),
    )
    .unwrap();
    let (err, fatal) = step_failure(&Step::Umount(ureq), 16);
    assert!(fatal);
    assert_eq!(
        err,
        PipelineError::Mount {
            op: OpKind::Umount,
            source: "".to_string(),
            target: "/tmp/old-root".to_string(),
            os_code: 16,
        }
    );
}

#[test]
fn pivot_failure_is_a_switch_error() {
    let step = Step::PivotRoot {
        new_root: "/tmp/scr".to_string(),
        put_old: "/tmp/scr/tmp/old-root".to_string(),
    };
    let (err, fatal) = step_failure(&step, 22);
    assert!(fatal);
    assert_eq!(
        err,
        PipelineError::Switch {
            new_root: "/tmp/scr".to_string(),
            put_old: "/tmp/scr/tmp/old-root".to_string(),
            os_code: 22,
        }
    );
}

#[test]
fn only_the_best_effort_removal_survives_as_a_warning() {
    let fatal_step = Step::RemoveDir { path: "/tmp/old-root/tmp/scr".to_string(), best_effort: false };
    let (err, fatal) = step_failure(&fatal_step, 39);
    assert!(fatal);
    assert_eq!(
        err,
        PipelineError::Mount {
            op: OpKind::RemoveDir,
            source: "".to_string(),
            target: "/tmp/old-root/tmp/scr".to_string(),
            os_code: 39,
        }
    );

    let soft_step = Step::RemoveDir { path: "/tmp/old-root".to_string(), best_effort: true };
    let (err, fatal) = step_failure(&soft_step, 16);
    assert!(!fatal);
    assert_eq!(
        err,
        PipelineError::CleanupWarning { path: "/tmp/old-root".to_string(), os_code: 16 }
    );
}

#[test]
fn makedir_and_changedir_failures_are_fatal_and_identified() {
    let (err, fatal) = step_failure(&Step::MakeDir { path: "/tmp/scr/tmp/old-root".to_string() }, 2);
    assert!(fatal);
    assert_eq!(
        err,
        PipelineError::Mount {
            op: OpKind::MakeDir,
            source: "".to_string(),
            target: "/tmp/scr/tmp/old-root".to_string(),
            os_code: 2,
        }
    );

    let (err, fatal) = step_failure(&Step::ChangeDir { path: "/mnt".to_string() }, 2);
    assert!(fatal);
    assert_eq!(
        err,
        PipelineError::Mount {
            op: OpKind::ChangeDir,
            source: "".to_string(),
            target: "/mnt".to_string(),
            os_code: 2,
        }
    );
}

#[test]
fn launch_passes_the_command_through_with_a_cleared_environment() {
    let command = vec!["/bin/true".to_string()];
    let launch = prepare_launch(&command);
    assert_eq!(launch.program, "/bin/true");
    assert!(launch.args.is_empty());
    assert!(launch.clear_env);

    let command = vec!["/bin/echo".to_string(), "a".to_string(), "b".to_string()];
    let launch = prepare_launch(&command);
    assert_eq!(launch.program, "/bin/echo");
    assert_eq!(launch.args, vec!["a".to_string(), "b".to_string()]);
    assert!(launch.clear_env);
}

#[test]
fn descriptions_identify_the_failed_operation_and_its_paths() {
    let e = PipelineError::Mount {
        op: OpKind::Mount,
        source: "/r".to_string(),
        target: "/tmp/scr".to_string(),
        os_code: 13,
    };
    assert_eq!(e.describe(), "mount failed: /r -> /tmp/scr");

    let e = PipelineError::Mount {
        op: OpKind::Umount,
        source: "".to_string(),
        target: "/tmp/old-root".to_string(),
        os_code: 16,
    };
    assert_eq!(e.describe(), "umount failed:  -> /tmp/old-root");

    let e = PipelineError::PathResolution { path: "/no/such/path".to_string() };
    assert_eq!(e.describe(), "cannot resolve path: /no/such/path");

    let e = PipelineError::Switch {
        new_root: "/tmp/scr".to_string(),
        put_old: "/tmp/scr/tmp/old-root".to_string(),
        os_code: 22,
    };
    assert_eq!(
        e.describe(),
        "cannot pivot root to /tmp/scr with old root at /tmp/scr/tmp/old-root"
    );

    let e = PipelineError::CleanupWarning { path: "/tmp/old-root".to_string(), os_code: 16 };
    assert_eq!(e.describe(), "cannot remove old root at /tmp/old-root");

    let e = PipelineError::Privilege { os_code: 1 };
    assert_eq!(e.describe(), "cannot detach mount namespace");

    let e = PipelineError::InvalidFlags { bits: 0b1000000 };
    assert_eq!(e.describe(), "unexpected mount flags");
}

#[test]
fn libc_result_keeps_the_happy_value_and_reports_the_code() {
    assert_eq!(libc_result(0, 0, 0), Ok(0));
    assert_eq!(libc_result(7, 7, 13), Ok(7));
    assert_eq!(libc_result(-1, 0, 13), Err(13));
}

/// A full simulated run: every OS call succeeds, the pipeline walks all of
/// its steps in order, ends in the conventional working directory, and hands
/// the launcher the command unchanged with an empty environment.
#[test]
fn simulated_run_completes_and_hands_off() {
    let args = vec!["rootfs-dir".to_string(), "/bin/true".to_string()];
    let rootfs = check_resolution(&args[0], Some("/abs/rootfs-dir".to_string())).unwrap();

    let mut detacher = NamespaceDetacher::new();
    let request = detacher.detach_mount_namespace();
    assert!(request.is_some());

    let plan = full_plan(&rootfs, "/tmp/scr");
    let mut performed = 0usize;
    for step in plan.iter() {
        // simulate success for every step; a failing run would consult
        // step_failure and stop on the first fatal classification
        performed += 1;
        let _ = step;
    }
    assert_eq!(performed, 19);
    match &plan[18] {
        Step::ChangeDir { path } => assert_eq!(path, "/mnt"),
        _ => panic!("the plan must end by entering the conventional directory"),
    }

    let launch = prepare_launch(&args[1..].to_vec());
    assert_eq!(launch.program, "/bin/true");
    assert!(launch.args.is_empty());
    assert!(launch.clear_env);
}
