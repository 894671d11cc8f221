use dsh_installer::lifecycle::{
    MainCloseAction, OpenAction, SecondInstanceAction, edition_for, initial_prompt,
    initial_snapshot, main_close_action, open_action, second_instance_action,
};
use dsh_installer::model::{Edition, Locale, ServicePhase, SetupPhase, UpdatePhase, UpdateTarget};
use dsh_installer::settings::Settings;

#[test]
fn main_close_behavior_tracks_installation_lifecycle() {
    assert_eq!(
        main_close_action(true, false),
        MainCloseAction::ConfirmSetupCancellation
    );
    assert_eq!(main_close_action(false, true), MainCloseAction::HideToTray);
    assert_eq!(main_close_action(false, false), MainCloseAction::Exit);
}

#[test]
fn running_setup_is_confirmed_even_when_complete() {
    assert_eq!(
        main_close_action(true, true),
        MainCloseAction::ConfirmSetupCancellation
    );
}

#[test]
fn editions_follow_the_runtime_seed() {
    assert_eq!(edition_for(true), Edition::Offline);
    assert_eq!(edition_for(false), Edition::Online);
}

#[test]
fn initial_snapshot_reflects_resolved_runtime_and_staged_update() {
    let mut settings = Settings::default();
    settings.locale = Locale::Chinese;
    settings.dsh.staged_version = Some("0.1.0-rc.9".to_owned());
    let snapshot = initial_snapshot(&settings, Edition::Online, Some("0.1.0-rc.8".to_owned()), true);
    assert!(snapshot.setup_complete);
    assert_eq!(snapshot.setup_phase, SetupPhase::Complete);
    assert_eq!(snapshot.dsh_version, "0.1.0-rc.8");
    assert_eq!(snapshot.locale, Locale::Chinese);
    assert_eq!(snapshot.message_key, "complete");
    let update = snapshot.update.expect("staged update");
    assert_eq!(update.target, UpdateTarget::Dsh);
    assert_eq!(update.phase, UpdatePhase::Ready);
    assert_eq!(update.version.as_deref(), Some("0.1.0-rc.9"));
    assert_eq!(update.message_key, "dshUpdate");

    let fresh = initial_snapshot(&Settings::default(), Edition::Offline, None, false);
    assert!(!fresh.setup_complete);
    assert_eq!(fresh.setup_phase, SetupPhase::NotInstalled);
    assert_eq!(fresh.message_key, "installCopy");
    assert_eq!(fresh.progress.numerator, 0);
    assert!(fresh.update.is_none());
}

#[test]
fn staged_update_without_its_directory_is_not_shown() {
    let mut settings = Settings::default();
    settings.dsh.staged_version = Some("0.1.0-rc.9".to_owned());
    let snapshot = initial_snapshot(&settings, Edition::Online, None, false);
    assert!(snapshot.update.is_none());
}

#[test]
fn prompts_and_second_instances_follow_the_state() {
    assert_eq!(initial_prompt(true), "exit");
    assert_eq!(initial_prompt(false), "cancel-setup");
    assert_eq!(open_action(ServicePhase::Ready), OpenAction::OpenBrowser);
    assert_eq!(open_action(ServicePhase::Failed), OpenAction::StartService);
    assert_eq!(
        second_instance_action(true, false, true, ServicePhase::Ready),
        SecondInstanceAction::ShutDown
    );
    assert_eq!(
        second_instance_action(false, true, true, ServicePhase::Ready),
        SecondInstanceAction::ShowMain
    );
    assert_eq!(
        second_instance_action(false, false, true, ServicePhase::Ready),
        SecondInstanceAction::OpenBrowser
    );
    assert_eq!(
        second_instance_action(false, false, true, ServicePhase::Stopped),
        SecondInstanceAction::ShowMainAndStart
    );
}
