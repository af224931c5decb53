use rootswitch::builder::{import_host_dir_steps, scratch_root_steps};
use rootswitch::driver::full_plan;
use rootswitch::flags::{FLAG_BIND, FLAG_REC, FLAG_SLAVE, MountFlags, UMNT_DETACH, UmountFlags};
use rootswitch::step::Step;
use rootswitch::switcher::{RootSwitcher, SwitchPhase};

fn expect_mount(step: &Step, source: &str, target: &str, fstype: &str, flags: Option<u32>) {
    match step {
        Step::Mount(req) => {
            assert_eq!(req.source, source);
            assert_eq!(req.target, target);
            assert_eq!(req.fstype, fstype);
            assert_eq!(req.flags, flags.map(|bits| MountFlags { bits }));
            let expected_mask = flags.map(|bits| MountFlags { bits }.translate()).unwrap_or(0);
            assert_eq!(req.os_flags, expected_mask);
        }
        other => panic!("expected a mount step, got {:?}", step_kind(other)),
    }
}

fn expect_umount(step: &Step, target: &str, flags: Option<u32>) {
    match step {
        Step::Umount(req) => {
            assert_eq!(req.target, target);
            assert_eq!(req.flags, flags.map(|bits| UmountFlags { bits }));
        }
        other => panic!("expected an unmount step, got {:?}", step_kind(other)),
    }
}

fn step_kind(step: &Step) -> &'static str {
    match step {
        Step::Mount(_) => "mount",
        Step::Umount(_) => "umount",
        Step::MakeDir { .. } => "makedir",
        Step::RemoveDir { .. } => "removedir",
        Step::PivotRoot { .. } => "pivot",
        Step::ChangeDir { .. } => "changedir",
    }
}

const REC_SLAVE: u32 = FLAG_REC | FLAG_SLAVE;
const REC_BIND: u32 = FLAG_REC | FLAG_BIND;

#[test]
fn import_pair_is_bind_then_slave() {
    let steps = import_host_dir_steps("/tmp/scr", "/dev");
    assert_eq!(steps.len(), 2);
    expect_mount(&steps[0], "/dev", "/tmp/scr/dev", "", Some(REC_BIND));
    expect_mount(&steps[1], "none", "/tmp/scr/dev", "", Some(REC_SLAVE));
}

#[test]
fn scratch_root_build_is_the_exact_ordered_sequence() {
    let steps = scratch_root_steps("/r", "/tmp/scr");
    assert_eq!(steps.len(), 11);
    expect_mount(&steps[0], "none", "/", "", Some(REC_SLAVE));
    expect_mount(&steps[1], "/tmp/scr", "/tmp/scr", "", Some(FLAG_BIND));
    expect_mount(&steps[2], "/r", "/tmp/scr", "", Some(REC_BIND));
    expect_mount(&steps[3], "none", "/tmp/scr", "", Some(REC_SLAVE));
    expect_mount(&steps[4], "/dev", "/tmp/scr/dev", "", Some(REC_BIND));
    expect_mount(&steps[5], "none", "/tmp/scr/dev", "", Some(REC_SLAVE));
    expect_mount(&steps[6], "/sys", "/tmp/scr/sys", "", Some(REC_BIND));
    expect_mount(&steps[7], "none", "/tmp/scr/sys", "", Some(REC_SLAVE));
    expect_mount(&steps[8], "/proc", "/tmp/scr/proc", "", Some(REC_BIND));
    expect_mount(&steps[9], "none", "/tmp/scr/proc", "", Some(REC_SLAVE));
    expect_mount(&steps[10], "none", "/tmp/scr/tmp", "tmpfs", None);
}

#[test]
fn switcher_walks_its_phases_in_order() {
    let mut sw = RootSwitcher::new("/tmp/scr".to_string());
    assert_eq!(sw.phase, SwitchPhase::PreSwitch);

    let switch = sw.switch_steps();
    assert_eq!(sw.phase, SwitchPhase::Switched);
    assert_eq!(switch.len(), 2);
    match &switch[0] {
        Step::MakeDir { path } => assert_eq!(path, "/tmp/scr/tmp/old-root"),
        other => panic!("expected makedir, got {:?}", step_kind(other)),
    }
    match &switch[1] {
        Step::PivotRoot { new_root, put_old } => {
            assert_eq!(new_root, "/tmp/scr");
            assert_eq!(put_old, "/tmp/scr/tmp/old-root");
        }
        other => panic!("expected pivot, got {:?}", step_kind(other)),
    }

    let cleanup = sw.cleanup_steps();
    assert_eq!(sw.phase, SwitchPhase::Cleaned);
    assert_eq!(cleanup.len(), 5);
    expect_umount(&cleanup[0], "/tmp/old-root/tmp/scr", None);
    match &cleanup[1] {
        Step::RemoveDir { path, best_effort } => {
            assert_eq!(path, "/tmp/old-root/tmp/scr");
            assert!(!best_effort);
        }
        other => panic!("expected removedir, got {:?}", step_kind(other)),
    }
    expect_mount(&cleanup[2], "none", "/tmp/old-root", "", Some(REC_SLAVE));
    expect_umount(&cleanup[3], "/tmp/old-root", Some(UMNT_DETACH));
    match &cleanup[4] {
        Step::RemoveDir { path, best_effort } => {
            assert_eq!(path, "/tmp/old-root");
            assert!(best_effort);
        }
        other => panic!("expected removedir, got {:?}", step_kind(other)),
    }
}

#[test]
fn full_plan_is_build_switch_cleanup_then_cwd() {
    let plan = full_plan("/r", "/tmp/scr");
    assert_eq!(plan.len(), 19);
    // the build comes first
    expect_mount(&plan[0], "none", "/", "", Some(REC_SLAVE));
    expect_mount(&plan[2], "/r", "/tmp/scr", "", Some(REC_BIND));
    // then the switch
    match &plan[12] {
        Step::PivotRoot { new_root, put_old } => {
            assert_eq!(new_root, "/tmp/scr");
            assert_eq!(put_old, "/tmp/scr/tmp/old-root");
        }
        other => panic!("expected pivot, got {:?}", step_kind(other)),
    }
    // the old root is made a recursive slave strictly before it is unmounted
    expect_mount(&plan[15], "none", "/tmp/old-root", "", Some(REC_SLAVE));
    expect_umount(&plan[16], "/tmp/old-root", Some(UMNT_DETACH));
    // and the run ends in the conventional working directory
    match &plan[18] {
        Step::ChangeDir { path } => assert_eq!(path, "/mnt"),
        other => panic!("expected changedir, got {:?}", step_kind(other)),
    }
}

#[test]
fn plan_masks_match_the_platform() {
    let plan = full_plan("/r", "/tmp/scr");
    for step in plan.iter() {
        match step {
            Step::Mount(req) => match req.flags {
                Some(f) => assert_eq!(req.os_flags, f.translate()),
                None => assert_eq!(req.os_flags, 0),
            },
            Step::Umount(req) => match req.flags {
                Some(f) => assert_eq!(req.os_flags, f.translate()),
                None => assert_eq!(req.os_flags, 0),
            },
            _ => {}
        }
    }
    // spot-check the first step against the platform constants
    match &plan[0] {
        Step::Mount(req) => {
            assert_eq!(req.os_flags, (libc::MS_REC | libc::MS_SLAVE) as u64)
        }
        other => panic!("expected mount, got {:?}", step_kind(other)),
    }
}
