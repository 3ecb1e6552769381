use abc::handle_error;
use abc::MountReadFailed;

#[test]
fn deploy_failure_is_minus_one() {
    assert_eq!(MountReadFailed::Deploy.code(), -1);
    assert_eq!(handle_error(MountReadFailed::Deploy), -1);
}

#[test]
fn exec_failure_is_minus_two() {
    assert_eq!(MountReadFailed::Exec.code(), -2);
    assert_eq!(handle_error(MountReadFailed::Exec), -2);
}

#[test]
fn out_failure_is_four_hundred_four() {
    assert_eq!(MountReadFailed::Out.code(), 404);
    assert_eq!(handle_error(MountReadFailed::Out), 404);
}

#[test]
fn each_failure_names_its_mount() {
    assert_eq!(MountReadFailed::Deploy.mount(), "deployFile");
    assert_eq!(MountReadFailed::Exec.mount(), "execFile");
    assert_eq!(MountReadFailed::Out.mount(), "outFile");
}

#[test]
fn each_failure_has_its_name() {
    assert_eq!(MountReadFailed::Deploy.name(), "Deploy");
    assert_eq!(MountReadFailed::Exec.name(), "Exec");
    assert_eq!(MountReadFailed::Out.name(), "Out");
}

#[test]
fn name_agrees_with_debug_output() {
    assert_eq!(format!("{:?}", MountReadFailed::Deploy), MountReadFailed::Deploy.name());
    assert_eq!(format!("{:?}", MountReadFailed::Exec), MountReadFailed::Exec.name());
    assert_eq!(format!("{:?}", MountReadFailed::Out), MountReadFailed::Out.name());
}

#[test]
fn diagnostic_reports_the_failure() {
    assert_eq!(MountReadFailed::Deploy.diagnostic(), "Reading a mount-file failed: Deploy");
    assert_eq!(MountReadFailed::Exec.diagnostic(), "Reading a mount-file failed: Exec");
    assert_eq!(MountReadFailed::Out.diagnostic(), "Reading a mount-file failed: Out");
}

#[test]
fn failures_compare_by_variant() {
    assert_eq!(MountReadFailed::Deploy, MountReadFailed::Deploy);
    assert_ne!(MountReadFailed::Deploy, MountReadFailed::Exec);
    assert_ne!(MountReadFailed::Exec, MountReadFailed::Out);
}
