use dsh_installer::installation::{DshInstallation, InstallAction, InstallEvent, InstallStage};
use dsh_installer::updates::RollbackStep;

fn fail(text: &str) -> InstallEvent {
    InstallEvent::Failed(text.to_owned())
}

#[test]
fn a_successful_installation_commits_after_the_pointer_switch() {
    let mut installation = DshInstallation::new();
    assert_eq!(installation.stage(), InstallStage::Validating);
    assert!(matches!(installation.step(InstallEvent::Succeeded), InstallAction::StopService));
    assert!(matches!(installation.step(InstallEvent::Succeeded), InstallAction::MoveIntoPlace));
    assert!(matches!(installation.step(InstallEvent::Succeeded), InstallAction::ResolveMoved));
    assert!(matches!(installation.step(InstallEvent::Succeeded), InstallAction::StartCandidate));
    assert!(matches!(installation.step(InstallEvent::Succeeded), InstallAction::SwitchPointer));
    assert!(matches!(installation.step(InstallEvent::Succeeded), InstallAction::Commit));
    assert_eq!(installation.stage(), InstallStage::Finished);
}

#[test]
fn a_failed_validation_keeps_the_running_service() {
    let mut installation = DshInstallation::new();
    match installation.step(fail("Node.js reported v1 instead of v24.19.0.")) {
        InstallAction::Fail(error) => assert_eq!(error, "Node.js reported v1 instead of v24.19.0."),
        _ => panic!("a failed validation must end the installation"),
    }
    assert_eq!(installation.stage(), InstallStage::Finished);
}

fn advance_to(installation: &mut DshInstallation, steps: usize) {
    for _ in 0..steps {
        installation.step(InstallEvent::Succeeded);
    }
}

#[test]
fn failures_after_the_stop_restart_the_previous_version() {
    let cases = [
        (2, RollbackStep::Prepare, false, false),
        (3, RollbackStep::Resolve, false, true),
        (4, RollbackStep::Start, true, true),
        (5, RollbackStep::Activate, true, true),
    ];
    for (steps, step, stop, discard) in cases {
        let mut installation = DshInstallation::new();
        advance_to(&mut installation, steps);
        match installation.step(fail("boom")) {
            InstallAction::RestartPrevious { stop_service, discard_candidate } => {
                assert_eq!((stop_service, discard_candidate), (stop, discard));
            }
            _ => panic!("a failure after the stop must restart the previous version"),
        }
        assert_eq!(installation.stage(), InstallStage::RollingBack(step));
    }
}

#[test]
fn rollbacks_report_the_failed_step_and_the_restart() {
    let mut installation = DshInstallation::new();
    advance_to(&mut installation, 4);
    installation.step(fail("port taken"));
    match installation.step(InstallEvent::Restarted(None)) {
        InstallAction::Fail(error) => assert_eq!(
            error,
            "The updated service failed to start; the previous DSH version was restarted: port taken"
        ),
        _ => panic!("a rollback ends the installation"),
    }

    let mut installation = DshInstallation::new();
    advance_to(&mut installation, 2);
    installation.step(fail("access denied"));
    match installation.step(InstallEvent::Restarted(Some("no runtime".to_owned()))) {
        InstallAction::Fail(error) => assert_eq!(
            error,
            "The update could not be prepared (access denied) and the previous DSH version could not be restarted (no runtime)."
        ),
        _ => panic!("a rollback ends the installation"),
    }
    assert_eq!(installation.stage(), InstallStage::Finished);
}
