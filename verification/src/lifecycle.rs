use vstd::prelude::*;

use crate::model::{
    AppSnapshot, Edition, Percent, ServicePhase, SetupPhase, SetupProgress, UpdatePhase,
    UpdateState, UpdateTarget, optional_text, plain_update, whole_percent,
};
use crate::pnpm::{PnpmProgress, progress_percent, stage_message, stage_message_key};
use crate::settings::Settings;
use crate::text::owned;

verus! {

/// What closing the main window does.
#[derive(Clone, Copy, Debug, PartialEq, Eq, Structural)]
pub enum MainCloseAction {
    ConfirmSetupCancellation,
    HideToTray,
    Exit,
}

/// Closing the main window asks before cancelling a running setup, hides a
/// completed installation to the tray, and otherwise exits.
pub fn main_close_action(setup_running: bool, setup_complete: bool) -> (action: MainCloseAction)
    ensures
        setup_running ==> action == MainCloseAction::ConfirmSetupCancellation,
        !setup_running && setup_complete ==> action == MainCloseAction::HideToTray,
        !setup_running && !setup_complete ==> action == MainCloseAction::Exit,
{
    if setup_running {
        MainCloseAction::ConfirmSetupCancellation
    } else if setup_complete {
        MainCloseAction::HideToTray
    } else {
        MainCloseAction::Exit
    }
}

/// The edition: offline when the installer carries a runtime seed.
pub fn edition_for(offline_seed_present: bool) -> (e: Edition)
    ensures
        e == (if offline_seed_present {
            Edition::Offline
        } else {
            Edition::Online
        }),
{
    if offline_seed_present {
        Edition::Offline
    } else {
        Edition::Online
    }
}

/// The snapshot at start: setup counts as complete when a runtime resolved,
/// and then shows that runtime's DSH version; a staged DSH update whose
/// runtime directory exists is shown ready to install.
pub fn initial_snapshot(
    settings: &Settings,
    edition: Edition,
    resolved_version: Option<String>,
    staged_update_present: bool,
) -> (s: AppSnapshot)
    ensures
        s.locale == settings.locale,
        s.edition == edition,
        s.auto_check_dsh_updates == settings.auto_download,
        s.setup_complete == resolved_version is Some,
        s.setup_phase == (if resolved_version is Some {
            SetupPhase::Complete
        } else {
            SetupPhase::NotInstalled
        }),
        s.service_phase == ServicePhase::Stopped,
        s.progress == whole_percent(if resolved_version is Some {
            100
        } else {
            0
        }),
        match resolved_version {
            Some(v) => s.dsh_version@ == v@,
            None => s.dsh_version@ == crate::model::DSH_VERSION@,
        },
        match settings.dsh.staged_version {
            Some(v) => if staged_update_present {
                s.update matches Some(u) && plain_update(
                    u,
                    UpdateTarget::Dsh,
                    UpdatePhase::Ready,
                    Some(v@),
                    Some(whole_percent(100)),
                    "dshUpdate"@,
                )
            } else {
                s.update is None
            },
            None => s.update is None,
        },
{
    let complete = resolved_version.is_some();
    let mut snapshot = AppSnapshot::new(settings.locale, edition, settings.auto_download, complete);
    if let Some(version) = resolved_version {
        snapshot.dsh_version = version;
    }
    if let Some(version) = &settings.dsh.staged_version {
        if staged_update_present {
            snapshot.update = Some(
                UpdateState::plain(
                    UpdateTarget::Dsh,
                    UpdatePhase::Ready,
                    Some(version.clone()),
                    Some(Percent::whole(100)),
                    "dshUpdate",
                ),
            );
        }
    }
    snapshot
}

/// Records a setup step in the snapshot: its phase, percentage and message;
/// setup is complete exactly in the complete phase.
pub fn record_setup_step(snapshot: &mut AppSnapshot, phase: SetupPhase, percent: Percent, message_key: &str)
    ensures
        final(snapshot).setup_phase == phase,
        final(snapshot).progress == percent,
        final(snapshot).message_key@ == message_key@,
        final(snapshot).setup_complete == (phase == SetupPhase::Complete),
        final(snapshot).service_phase == old(snapshot).service_phase,
        final(snapshot).dsh_version == old(snapshot).dsh_version,
        final(snapshot).update == old(snapshot).update,
{
    snapshot.setup_phase = phase;
    snapshot.progress = percent;
    snapshot.message_key = owned(message_key);
    snapshot.setup_complete = phase == SetupPhase::Complete;
}

/// A setup progress event without package counts.
pub fn setup_step_event(phase: SetupPhase, percent: Percent, message_key: &str, detail: Option<String>) -> (e: SetupProgress)
    ensures
        e.phase == phase,
        e.percent == percent,
        e.message_key@ == message_key@,
        e.detail == detail,
        e.resolved_items is None,
        e.reused_items is None,
        e.downloaded_items is None,
        e.added_items is None,
        e.total_items is None,
        e.elapsed_seconds is None,
{
    SetupProgress {
        phase,
        percent,
        message_key: owned(message_key),
        detail,
        resolved_items: None,
        reused_items: None,
        downloaded_items: None,
        added_items: None,
        total_items: None,
        elapsed_seconds: None,
    }
}

/// Records a package-installation step of the setup in the snapshot: the
/// stage's message and percentage. Setup completion is left as it is.
pub fn record_package_step(snapshot: &mut AppSnapshot, phase: SetupPhase, pnpm: &PnpmProgress)
    ensures
        final(snapshot).setup_phase == phase,
        final(snapshot).progress == progress_percent(*pnpm),
        final(snapshot).message_key@ == stage_message(pnpm.stage),
        final(snapshot).setup_complete == old(snapshot).setup_complete,
        final(snapshot).service_phase == old(snapshot).service_phase,
{
    snapshot.setup_phase = phase;
    snapshot.progress = pnpm.percent();
    snapshot.message_key = stage_message_key(pnpm.stage);
}

/// A setup progress event of the package installation, with its counts.
pub fn package_step_event(phase: SetupPhase, pnpm: &PnpmProgress) -> (e: SetupProgress)
    ensures
        e.phase == phase,
        e.percent == progress_percent(*pnpm),
        e.message_key@ == stage_message(pnpm.stage),
        e.detail is None,
        e.resolved_items == Some(pnpm.resolved_items),
        e.reused_items == Some(pnpm.reused_items),
        e.downloaded_items == Some(pnpm.downloaded_items),
        e.added_items == Some(pnpm.added_items),
        e.total_items == pnpm.total_items,
        e.elapsed_seconds == Some(pnpm.elapsed_seconds),
{
    SetupProgress {
        phase,
        percent: pnpm.percent(),
        message_key: stage_message_key(pnpm.stage),
        detail: None,
        resolved_items: Some(pnpm.resolved_items),
        reused_items: Some(pnpm.reused_items),
        downloaded_items: Some(pnpm.downloaded_items),
        added_items: Some(pnpm.added_items),
        total_items: pnpm.total_items,
        elapsed_seconds: Some(pnpm.elapsed_seconds),
    }
}

/// Marks a failed setup in the snapshot with its message.
pub fn record_setup_failure(snapshot: &mut AppSnapshot, message_key: &str)
    ensures
        final(snapshot).setup_phase == SetupPhase::Failed,
        final(snapshot).message_key@ == message_key@,
        final(snapshot).progress == old(snapshot).progress,
        final(snapshot).setup_complete == old(snapshot).setup_complete,
{
    snapshot.setup_phase = SetupPhase::Failed;
    snapshot.message_key = owned(message_key);
}

/// Resets the snapshot when the private Node runtime turned out invalid at
/// start: the installation has to be repeated.
pub fn record_reinstall_needed(snapshot: &mut AppSnapshot)
    ensures
        !final(snapshot).setup_complete,
        final(snapshot).setup_phase == SetupPhase::NotInstalled,
        final(snapshot).service_phase == ServicePhase::Stopped,
        final(snapshot).message_key@ == "installTitle"@,
        final(snapshot).progress == whole_percent(0),
        final(snapshot).update == old(snapshot).update,
{
    snapshot.setup_complete = false;
    snapshot.setup_phase = SetupPhase::NotInstalled;
    snapshot.service_phase = ServicePhase::Stopped;
    snapshot.message_key = owned("installTitle");
    snapshot.progress = Percent::whole(0);
}

/// The prompt window's first view: the exit question once set up, else the
/// question whether to cancel the setup.
pub fn initial_prompt(setup_complete: bool) -> (r: String)
    ensures
        r@ == (if setup_complete {
            "exit"@
        } else {
            "cancel-setup"@
        }),
{
    if setup_complete {
        owned("exit")
    } else {
        owned("cancel-setup")
    }
}

/// What opening Harness from the main window or the tray does.
#[derive(Clone, Copy, Debug, PartialEq, Eq, Structural)]
pub enum OpenAction {
    /// The service is ready: open it in the browser.
    OpenBrowser,
    /// The service is not ready: start it, then open it.
    StartService,
}

/// What opening Harness does in `phase`.
pub fn open_action(phase: ServicePhase) -> (r: OpenAction)
    ensures
        r == (if phase == ServicePhase::Ready {
            OpenAction::OpenBrowser
        } else {
            OpenAction::StartService
        }),
{
    if phase == ServicePhase::Ready {
        OpenAction::OpenBrowser
    } else {
        OpenAction::StartService
    }
}

/// What starting the installer a second time does in the running one.
#[derive(Clone, Copy, Debug, PartialEq, Eq, Structural)]
pub enum SecondInstanceAction {
    /// The new instance asked for maintenance: stop the service and exit.
    ShutDown,
    /// Setup is running or not done: bring the main window forward.
    ShowMain,
    /// The service is ready: open it in the browser.
    OpenBrowser,
    /// Bring the main window forward and start the service.
    ShowMainAndStart,
}

/// What a second start of the installer does.
pub open spec fn second_instance(maintenance: bool, setup_running: bool, setup_complete: bool, phase: ServicePhase) -> SecondInstanceAction {
    if maintenance {
        SecondInstanceAction::ShutDown
    } else if setup_running || !setup_complete {
        SecondInstanceAction::ShowMain
    } else if phase == ServicePhase::Ready {
        SecondInstanceAction::OpenBrowser
    } else {
        SecondInstanceAction::ShowMainAndStart
    }
}

/// What a second start of the installer does.
pub fn second_instance_action(maintenance: bool, setup_running: bool, setup_complete: bool, phase: ServicePhase) -> (r: SecondInstanceAction)
    ensures
        r == second_instance(maintenance, setup_running, setup_complete, phase),
{
    if maintenance {
        SecondInstanceAction::ShutDown
    } else if setup_running || !setup_complete {
        SecondInstanceAction::ShowMain
    } else if phase == ServicePhase::Ready {
        SecondInstanceAction::OpenBrowser
    } else {
        SecondInstanceAction::ShowMainAndStart
    }
}

} // verus!
