use dsh_installer::updates::check_staged_version;
use dsh_installer::updates::{CheckEnd, finish_check};
use dsh_installer::updates::{
    UPDATE_PAUSED_ERROR, check_installer_update, check_staged_manifest, check_update_space,
    ensure_update_not_paused, is_pause_error,
};
use dsh_installer::model::{UpdatePhase, UpdateState, UpdateTarget};
use dsh_installer::pnpm::{PnpmProgress, PnpmStage};
use dsh_installer::updates::{
    AfterControllerCheck, RollbackStep, after_controller_check, blocked_release_result,
    check_update_request, completion_notice_phase, controller_update_offer,
    dsh_package_state, dsh_update_offer, dsh_update_state, failed_check_message_key,
    installing_state, is_pauseable_update, merge_update_results, next_check_delay_seconds,
    pause_allowed, rollback_message, update_request_matches, versions_to_prune,
};
use dsh_installer::model::Percent;

fn state(target: UpdateTarget, phase: UpdatePhase, version: &str, key: &str) -> UpdateState {
    UpdateState {
        target,
        phase,
        version: Some(version.to_owned()),
        progress: Some(Percent { numerator: 50, denominator: 1 }),
        resolved_items: None,
        reused_items: None,
        downloaded_items: None,
        added_items: None,
        total_items: None,
        elapsed_seconds: None,
        message_key: key.to_owned(),
    }
}

#[test]
fn only_dsh_download_preparation_is_pauseable() {
    let update = |target, phase| state(target, phase, "1.0.0", "downloadingUpdate");

    assert!(is_pauseable_update(&update(
        UpdateTarget::Dsh,
        UpdatePhase::Checking
    )));
    assert!(!is_pauseable_update(&update(
        UpdateTarget::Controller,
        UpdatePhase::Checking
    )));
    assert!(!is_pauseable_update(&update(
        UpdateTarget::Dsh,
        UpdatePhase::Installing
    )));
}

#[test]
fn manual_checks_report_current_and_failed_results() {
    assert_eq!(
        completion_notice_phase(true, &Ok(false)),
        Some(UpdatePhase::Current)
    );
    assert_eq!(
        completion_notice_phase(true, &Err("offline".to_owned())),
        Some(UpdatePhase::Failed)
    );
    assert_eq!(completion_notice_phase(true, &Ok(true)), None);
    assert_eq!(completion_notice_phase(false, &Ok(false)), None);
    assert_eq!(
        completion_notice_phase(false, &Err("offline".to_owned())),
        None
    );
}

#[test]
fn update_decision_must_match_target_version_and_phase() {
    let mut update = state(UpdateTarget::Dsh, UpdatePhase::Ready, "0.1.0-rc.8", "dshUpdate");
    update.progress = Some(Percent { numerator: 100, denominator: 1 });
    assert!(update_request_matches(
        &update,
        UpdateTarget::Dsh,
        "0.1.0-rc.8"
    ));
    assert!(!update_request_matches(
        &update,
        UpdateTarget::Controller,
        "0.1.0-rc.8"
    ));
    assert!(!update_request_matches(
        &update,
        UpdateTarget::Dsh,
        "0.1.0-rc.9"
    ));
    let available = UpdateState {
        phase: UpdatePhase::Available,
        progress: None,
        message_key: "dshUpdateAvailable".to_owned(),
        ..update
    };
    assert!(update_request_matches(
        &available,
        UpdateTarget::Dsh,
        "0.1.0-rc.8"
    ));
}

#[test]
fn a_failed_controller_check_cannot_claim_everything_is_current() {
    assert_eq!(merge_update_results(None, Ok(false)), Ok(false));
    assert_eq!(
        merge_update_results(Some("feed".to_owned()), Ok(true)),
        Ok(true)
    );
    assert_eq!(
        merge_update_results(Some("feed".to_owned()), Ok(false)),
        Err("Controller update check failed: feed".to_owned())
    );
    assert_eq!(
        merge_update_results(Some("feed".to_owned()), Err("registry".to_owned())),
        Err(
            "Controller update check failed: feed; DSH update check failed: registry"
                .to_owned()
        )
    );
}

#[test]
fn a_failed_dsh_check_names_its_channel() {
    assert_eq!(
        merge_update_results(None, Err("registry".to_owned())),
        Err("DSH update check failed: registry".to_owned())
    );
}

#[test]
fn the_installer_check_decides_whether_dsh_is_checked() {
    assert!(matches!(
        after_controller_check(Ok(true), true),
        AfterControllerCheck::Finished(Ok(true))
    ));
    assert!(matches!(
        after_controller_check(Ok(false), false),
        AfterControllerCheck::Finished(Ok(false))
    ));
    assert!(matches!(
        after_controller_check(Ok(false), true),
        AfterControllerCheck::CheckDsh(None)
    ));
    match after_controller_check(Err("feed".to_owned()), false) {
        AfterControllerCheck::Finished(Err(error)) => {
            assert_eq!(error, "Controller update check failed: feed")
        }
        _ => panic!("the installer failure ends the check"),
    }
    match after_controller_check(Err("feed".to_owned()), true) {
        AfterControllerCheck::CheckDsh(Some(error)) => assert_eq!(error, "feed"),
        _ => panic!("DSH is still checked"),
    }
}

#[test]
fn node_blocked_releases_have_their_own_handling() {
    let blocked = "This DSH release requires a newer private Node.js runtime.";
    assert_eq!(failed_check_message_key(blocked), "nodeVersionBlocked");
    assert_eq!(failed_check_message_key("offline"), "updateCheckFailed");
    assert_eq!(blocked_release_result(false, blocked.to_owned()), Ok(false));
    assert_eq!(
        blocked_release_result(true, blocked.to_owned()),
        Err(blocked.to_owned())
    );
    assert_eq!(
        blocked_release_result(false, "offline".to_owned()),
        Err("offline".to_owned())
    );
}

#[test]
fn offers_skip_passed_over_versions_and_announce_new_ones() {
    assert_eq!(controller_update_offer(false, false, "1.2.0", Some("1.2.0"), None), None);
    assert_eq!(controller_update_offer(true, false, "1.2.0", Some("1.2.0"), Some("1.2.0")), Some(true));
    assert_eq!(controller_update_offer(false, false, "1.2.0", None, Some("1.2.0")), Some(false));
    assert_eq!(controller_update_offer(false, true, "1.2.0", None, Some("1.2.0")), Some(true));
    assert_eq!(controller_update_offer(false, false, "1.2.0", None, Some("1.1.0")), Some(true));

    assert_eq!(dsh_update_offer(false, false, "0.1.0-rc.8", "0.1.0-rc.9", None, None), Ok(Some(true)));
    assert_eq!(dsh_update_offer(false, false, "0.1.0", "0.1.0-rc.9", None, None), Ok(None));
    assert_eq!(dsh_update_offer(false, false, "0.1.0", "0.1.0", None, None), Ok(None));
    assert_eq!(
        dsh_update_offer(false, false, "0.1.0-rc.8", "0.1.0-rc.9", Some("0.1.0-rc.9"), None),
        Ok(None)
    );
    assert_eq!(
        dsh_update_offer(true, false, "0.1.0-rc.8", "0.1.0-rc.9", Some("0.1.0-rc.9"), Some("0.1.0-rc.9")),
        Ok(Some(true))
    );
    assert_eq!(
        dsh_update_offer(false, false, "0.1.0-rc.8", "0.1.0-rc.9", None, Some("0.1.0-rc.9")),
        Ok(Some(false))
    );
    assert!(dsh_update_offer(false, false, "not a version", "0.1.0", None, None).is_err());
}

#[test]
fn offered_and_installing_states() {
    let ready = dsh_update_state("0.1.0-rc.9", true);
    assert_eq!(ready.phase, UpdatePhase::Ready);
    assert_eq!(ready.progress, Some(Percent { numerator: 100, denominator: 1 }));
    assert_eq!(ready.message_key, "dshUpdate");
    let available = dsh_update_state("0.1.0-rc.9", false);
    assert_eq!(available.phase, UpdatePhase::Available);
    assert_eq!(available.progress, None);
    assert_eq!(available.message_key, "dshUpdateAvailable");
    let installing = installing_state(UpdateTarget::Dsh, "0.1.0-rc.9");
    assert_eq!(installing.progress, Some(Percent { numerator: 72, denominator: 1 }));
    let installer = installing_state(UpdateTarget::Controller, "0.5.0");
    assert_eq!(installer.progress, Some(Percent { numerator: 10, denominator: 1 }));
    assert_eq!(installer.message_key, "installingUpdate");
    let mut pnpm = PnpmProgress::default();
    pnpm.stage = PnpmStage::Resolving;
    pnpm.resolved_items = 3;
    let package = dsh_package_state("0.1.0-rc.9", &pnpm);
    assert_eq!(package.resolved_items, Some(3));
    assert_eq!(package.message_key, "resolvingDependencies");
    assert_eq!(package.phase, UpdatePhase::Checking);
}

#[test]
fn requests_pauses_and_schedules() {
    let update = state(UpdateTarget::Dsh, UpdatePhase::Checking, "1.0.0", "downloadingUpdate");
    assert_eq!(
        check_update_request(None, UpdateTarget::Dsh, "1.0.0"),
        Err("No update is available.".to_owned())
    );
    assert_eq!(
        check_update_request(Some(&update), UpdateTarget::Dsh, "1.0.0"),
        Err("The update request no longer matches the available update.".to_owned())
    );
    assert!(pause_allowed(true, Some(&update)).is_ok());
    assert_eq!(
        pause_allowed(false, Some(&update)),
        Err("No DSH download is currently running.".to_owned())
    );
    assert!(pause_allowed(true, None).is_err());
    assert_eq!(next_check_delay_seconds(true), 86400);
    assert_eq!(next_check_delay_seconds(false), 3600);
}

#[test]
fn rollback_messages_name_the_failed_step_and_the_restart() {
    assert_eq!(
        rollback_message(RollbackStep::Start, "timeout", None),
        "The updated service failed to start; the previous DSH version was restarted: timeout"
    );
    assert_eq!(
        rollback_message(RollbackStep::Activate, "disk", Some("port")),
        "The update could not be activated (disk) and the previous DSH version could not be restarted (port)."
    );
    assert_eq!(
        rollback_message(RollbackStep::InstallerApply, "signature", None),
        "The Installer update could not be applied: signature"
    );
}

#[test]
fn pruning_keeps_the_pointed_versions() {
    let kept = vec!["0.1.0".to_owned(), "0.2.0".to_owned()];
    let directories = vec!["0.0.9".to_owned(), "0.1.0".to_owned(), "0.2.0".to_owned(), "0.1.5".to_owned()];
    assert_eq!(
        versions_to_prune(&kept, &directories),
        vec!["0.0.9".to_owned(), "0.1.5".to_owned()]
    );
}

#[test]
fn pauses_space_and_confirmed_versions_are_checked() {
    assert!(is_pause_error("The update was paused by the user."));
    assert!(!is_pause_error("The update was paused"));
    assert_eq!(ensure_update_not_paused(false), Ok(()));
    assert_eq!(
        ensure_update_not_paused(true),
        Err(UPDATE_PAUSED_ERROR.to_owned())
    );

    assert_eq!(check_update_space(734003200), Ok(()));
    assert_eq!(
        check_update_space(734003199),
        Err("At least 700 MB of free disk space is required to download an update.".to_owned())
    );

    assert_eq!(
        check_staged_manifest(r#"{"name":"@deepseek-ai/dsh","version":"0.1.0-rc.9"}"#, "0.1.0-rc.9"),
        Ok(())
    );
    let invalid = Err("The staged DSH package version is invalid.".to_owned());
    assert_eq!(
        check_staged_manifest(r#"{"version":"0.1.0-rc.8"}"#, "0.1.0-rc.9"),
        invalid
    );
    assert_eq!(check_staged_manifest("not json", "0.1.0-rc.9"), invalid);
    assert_eq!(check_staged_manifest(r#"{"version":9}"#, "9"), invalid);

    assert_eq!(check_installer_update(Some("0.4.7"), "0.4.7"), Ok(()));
    assert_eq!(
        check_installer_update(Some("0.4.8"), "0.4.7"),
        Err("The controller update no longer matches the confirmed version.".to_owned())
    );
    assert_eq!(
        check_installer_update(None, "0.4.7"),
        Err("The controller update is no longer available.".to_owned())
    );
}

#[test]
fn checks_end_with_a_notice_only_when_manual() {
    let paused = Err("The update was paused by the user.".to_owned());
    for manual in [false, true] {
        let (end, reply) = finish_check(manual, paused.clone());
        assert!(matches!(end, CheckEnd::Clear));
        assert_eq!(reply, Ok(()));
    }

    let (end, reply) = finish_check(true, Ok(false));
    match end {
        CheckEnd::Notify(notice) => {
            assert_eq!(notice.phase, UpdatePhase::Current);
            assert_eq!(notice.message_key, "upToDate");
        }
        _ => panic!("a manual check that found nothing reports it"),
    }
    assert_eq!(reply, Ok(()));

    let (end, reply) = finish_check(true, Err("offline".to_owned()));
    match end {
        CheckEnd::Notify(notice) => {
            assert_eq!(notice.phase, UpdatePhase::Failed);
            assert_eq!(notice.message_key, "updateCheckFailed");
        }
        _ => panic!("a failed manual check reports the failure"),
    }
    assert_eq!(reply, Err("offline".to_owned()));

    let (end, reply) = finish_check(false, Err("offline".to_owned()));
    assert!(matches!(end, CheckEnd::Clear));
    assert_eq!(reply, Err("offline".to_owned()));
    assert!(matches!(finish_check(false, Ok(false)).0, CheckEnd::Clear));
    assert!(matches!(finish_check(true, Ok(true)).0, CheckEnd::Keep));
    assert!(matches!(finish_check(false, Ok(true)).0, CheckEnd::Keep));
}

#[test]
fn staged_versions_are_checked_as_read() {
    assert_eq!(check_staged_version(Some("0.1.0"), "0.1.0"), Ok(()));
    let invalid = Err("The staged DSH package version is invalid.".to_owned());
    assert_eq!(check_staged_version(Some("0.1.1"), "0.1.0"), invalid);
    assert_eq!(check_staged_version(None, "0.1.0"), invalid);
}
