//! The installation of a staged DSH update as a transaction: validate the
//! staged runtime, stop the service, move the runtime into place, resolve
//! and test it, and switch the runtime pointer, which commits the update.
//! A failure after the service was stopped restarts the previous version.
use vstd::prelude::*;

use crate::model::optional_text;
use crate::updates::{RollbackStep, rollback_message, rollback_text};

verus! {

/// Where the installation stands; each stage waits for the outcome of its
/// outside work.
#[derive(Clone, Copy, Debug, PartialEq, Eq, Structural)]
pub enum InstallStage {
    /// The staged runtime is being resolved and validated.
    Validating,
    /// The running service is being stopped.
    Stopping,
    /// The staged runtime is being moved to its version directory.
    Moving,
    /// The moved runtime is being resolved.
    Resolving,
    /// The moved runtime is being started and awaited.
    Starting,
    /// The runtime pointer is being switched to the new version.
    Activating,
    /// The previous version is being restarted after the failed step.
    RollingBack(RollbackStep),
    /// The installation has ended.
    Finished,
}

/// The outcome of the outside work that the installation waited for.
#[derive(Clone, Debug)]
pub enum InstallEvent {
    /// The step succeeded.
    Succeeded,
    /// The step failed with this error.
    Failed(String),
    /// The previous version was restarted, or the restart failed with this
    /// error.
    Restarted(Option<String>),
}

/// What the installation does next.
#[derive(Clone, Debug)]
pub enum InstallAction {
    /// Show the update as restarting and stop the running service.
    StopService,
    /// Move the staged runtime to its version directory.
    MoveIntoPlace,
    /// Resolve the moved runtime.
    ResolveMoved,
    /// Show the update as being tested, then start the moved runtime and
    /// wait until it is ready.
    StartCandidate,
    /// Show the update as activating and switch the runtime pointer.
    SwitchPointer,
    /// The update is committed: record the new version, forget the staged
    /// copy, prune old versions and open Harness.
    Commit,
    /// Restart the previous version, after stopping the new service and
    /// removing the moved runtime where asked.
    RestartPrevious { stop_service: bool, discard_candidate: bool },
    /// The installation failed with this error.
    Fail(String),
}

/// An event as texts.
pub enum InstallEventView {
    Succeeded,
    Failed(Seq<char>),
    Restarted(Option<Seq<char>>),
}

/// An action as texts.
pub enum InstallActionView {
    StopService,
    MoveIntoPlace,
    ResolveMoved,
    StartCandidate,
    SwitchPointer,
    Commit,
    RestartPrevious { stop_service: bool, discard_candidate: bool },
    Fail(Seq<char>),
}

impl View for InstallEvent {
    type V = InstallEventView;

    open spec fn view(&self) -> InstallEventView {
        match self {
            InstallEvent::Succeeded => InstallEventView::Succeeded,
            InstallEvent::Failed(e) => InstallEventView::Failed(e@),
            InstallEvent::Restarted(r) => InstallEventView::Restarted(optional_text(*r)),
        }
    }
}

impl View for InstallAction {
    type V = InstallActionView;

    open spec fn view(&self) -> InstallActionView {
        match self {
            InstallAction::StopService => InstallActionView::StopService,
            InstallAction::MoveIntoPlace => InstallActionView::MoveIntoPlace,
            InstallAction::ResolveMoved => InstallActionView::ResolveMoved,
            InstallAction::StartCandidate => InstallActionView::StartCandidate,
            InstallAction::SwitchPointer => InstallActionView::SwitchPointer,
            InstallAction::Commit => InstallActionView::Commit,
            InstallAction::RestartPrevious { stop_service, discard_candidate } => {
                InstallActionView::RestartPrevious {
                    stop_service: *stop_service,
                    discard_candidate: *discard_candidate,
                }
            },
            InstallAction::Fail(e) => InstallActionView::Fail(e@),
        }
    }
}

/// Which events each stage waits for: the outcome of a step, or of the
/// restart while rolling back.
pub open spec fn install_event_expected(stage: InstallStage, e: InstallEventView) -> bool {
    match stage {
        InstallStage::RollingBack(_) => e is Restarted,
        InstallStage::Finished => false,
        _ => e is Succeeded || e is Failed,
    }
}

/// A failed step after the service was stopped: roll back, restarting the
/// previous version.
pub open spec fn rolled_back(step: RollbackStep, error: Seq<char>, stop_service: bool, discard_candidate: bool) -> (
    InstallStage,
    Seq<char>,
    InstallActionView,
) {
    (
        InstallStage::RollingBack(step),
        error,
        InstallActionView::RestartPrevious { stop_service, discard_candidate },
    )
}

/// One step of the installation from `stage`, with the error kept for the
/// rollback: a failed validation ends it unchanged while the old service
/// still runs; the stop leads to the move; each failure from the move on
/// restarts the previous version, stopping the new service once it was
/// started and removing the moved runtime once it was moved; a successful
/// start switches the pointer, and a switched pointer commits.
pub open spec fn install_transition(stage: InstallStage, error: Seq<char>, e: InstallEventView) -> (
    InstallStage,
    Seq<char>,
    InstallActionView,
) {
    match stage {
        InstallStage::Validating => match e {
            InstallEventView::Failed(f) => (InstallStage::Finished, error, InstallActionView::Fail(f)),
            _ => (InstallStage::Stopping, error, InstallActionView::StopService),
        },
        InstallStage::Stopping => (InstallStage::Moving, error, InstallActionView::MoveIntoPlace),
        InstallStage::Moving => match e {
            InstallEventView::Failed(f) => rolled_back(RollbackStep::Prepare, f, false, false),
            _ => (InstallStage::Resolving, error, InstallActionView::ResolveMoved),
        },
        InstallStage::Resolving => match e {
            InstallEventView::Failed(f) => rolled_back(RollbackStep::Resolve, f, false, true),
            _ => (InstallStage::Starting, error, InstallActionView::StartCandidate),
        },
        InstallStage::Starting => match e {
            InstallEventView::Failed(f) => rolled_back(RollbackStep::Start, f, true, true),
            _ => (InstallStage::Activating, error, InstallActionView::SwitchPointer),
        },
        InstallStage::Activating => match e {
            InstallEventView::Failed(f) => rolled_back(RollbackStep::Activate, f, true, true),
            _ => (InstallStage::Finished, error, InstallActionView::Commit),
        },
        InstallStage::RollingBack(step) => match e {
            InstallEventView::Restarted(r) => (
                InstallStage::Finished,
                error,
                InstallActionView::Fail(rollback_text(step, error, r)),
            ),
            _ => (InstallStage::Finished, error, InstallActionView::Fail(error)),
        },
        InstallStage::Finished => (InstallStage::Finished, error, InstallActionView::Fail(error)),
    }
}

/// The installation of a staged DSH update.
pub struct DshInstallation {
    stage: InstallStage,
    error: String,
}

impl DshInstallation {
    /// The current stage.
    pub closed spec fn stage_of(&self) -> InstallStage {
        self.stage
    }

    /// The error of the failed step, kept for the rollback's message.
    pub closed spec fn error_of(&self) -> Seq<char> {
        self.error@
    }

    /// An installation about to validate the staged runtime.
    pub fn new() -> (r: DshInstallation)
        ensures
            r.stage_of() == InstallStage::Validating,
            r.error_of() == Seq::<char>::empty(),
    {
        DshInstallation { stage: InstallStage::Validating, error: String::new() }
    }

    /// The current stage.
    pub fn stage(&self) -> (r: InstallStage)
        ensures
            r == self.stage_of(),
    {
        self.stage
    }

    fn roll_back(&mut self, step: RollbackStep, error: String, stop_service: bool, discard_candidate: bool) -> (a: InstallAction)
        ensures
            (final(self).stage_of(), final(self).error_of(), a@) == rolled_back(
                step,
                error@,
                stop_service,
                discard_candidate,
            ),
    {
        self.stage = InstallStage::RollingBack(step);
        self.error = error;
        InstallAction::RestartPrevious { stop_service, discard_candidate }
    }

    /// Takes one step on the outcome of the work the stage waited for.
    pub fn step(&mut self, event: InstallEvent) -> (a: InstallAction)
        requires
            install_event_expected(old(self).stage_of(), event@),
        ensures
            (final(self).stage_of(), final(self).error_of(), a@) == install_transition(
                old(self).stage_of(),
                old(self).error_of(),
                event@,
            ),
    {
        match self.stage {
            InstallStage::Validating => match event {
                InstallEvent::Failed(f) => {
                    self.stage = InstallStage::Finished;
                    InstallAction::Fail(f)
                },
                _ => {
                    self.stage = InstallStage::Stopping;
                    InstallAction::StopService
                },
            },
            InstallStage::Stopping => {
                self.stage = InstallStage::Moving;
                InstallAction::MoveIntoPlace
            },
            InstallStage::Moving => match event {
                InstallEvent::Failed(f) => self.roll_back(RollbackStep::Prepare, f, false, false),
                _ => {
                    self.stage = InstallStage::Resolving;
                    InstallAction::ResolveMoved
                },
            },
            InstallStage::Resolving => match event {
                InstallEvent::Failed(f) => self.roll_back(RollbackStep::Resolve, f, false, true),
                _ => {
                    self.stage = InstallStage::Starting;
                    InstallAction::StartCandidate
                },
            },
            InstallStage::Starting => match event {
                InstallEvent::Failed(f) => self.roll_back(RollbackStep::Start, f, true, true),
                _ => {
                    self.stage = InstallStage::Activating;
                    InstallAction::SwitchPointer
                },
            },
            InstallStage::Activating => match event {
                InstallEvent::Failed(f) => self.roll_back(RollbackStep::Activate, f, true, true),
                _ => {
                    self.stage = InstallStage::Finished;
                    InstallAction::Commit
                },
            },
            InstallStage::RollingBack(step) => {
                self.stage = InstallStage::Finished;
                let message = match &event {
                    InstallEvent::Restarted(restart) => {
                        let restart_error = match restart {
                            Some(r) => Some(r.as_str()),
                            None => None,
                        };
                        rollback_message(step, self.error.as_str(), restart_error)
                    },
                    _ => self.error.clone(),
                };
                InstallAction::Fail(message)
            },
            InstallStage::Finished => InstallAction::Fail(self.error.clone()),
        }
    }
}

/// The pointer switch, which commits the update, happens only after the
/// new runtime started and became ready, and the commit only after the
/// pointer was switched.
pub proof fn lemma_commit_follows_a_successful_start(stage: InstallStage, error: Seq<char>, e: InstallEventView)
    requires
        install_event_expected(stage, e),
    ensures
        install_transition(stage, error, e).2 == InstallActionView::SwitchPointer ==> stage
            == InstallStage::Starting && e == InstallEventView::Succeeded,
        install_transition(stage, error, e).2 == InstallActionView::Commit ==> stage
            == InstallStage::Activating && e == InstallEventView::Succeeded,
        install_transition(stage, error, e).2 == InstallActionView::MoveIntoPlace ==> stage
            == InstallStage::Stopping,
{
}

/// Once the service was stopped, every failed step restarts the previous
/// version: the new service is stopped once it was started, and the moved
/// runtime removed once it was moved. A failed validation leaves the
/// running service alone and reports its error unchanged.
pub proof fn lemma_failures_after_the_stop_restart_the_previous_version(
    stage: InstallStage,
    error: Seq<char>,
    failure: Seq<char>,
)
    ensures
        stage == InstallStage::Validating ==> install_transition(
            stage,
            error,
            InstallEventView::Failed(failure),
        ) == (InstallStage::Finished, error, InstallActionView::Fail(failure)),
        (stage == InstallStage::Moving || stage == InstallStage::Resolving || stage
            == InstallStage::Starting || stage == InstallStage::Activating) ==> {
            let (next, kept, action) = install_transition(
                stage,
                error,
                InstallEventView::Failed(failure),
            );
            &&& next is RollingBack
            &&& kept == failure
            &&& action matches InstallActionView::RestartPrevious { stop_service, discard_candidate }
                && stop_service == (stage == InstallStage::Starting || stage
                == InstallStage::Activating) && discard_candidate == (stage != InstallStage::Moving)
        },
{
}

/// A rollback ends the installation with the message of the failed step,
/// naming the restart's failure if there was one.
pub proof fn lemma_rollback_reports_the_failed_step(step: RollbackStep, error: Seq<char>, restart: Option<Seq<char>>)
    ensures
        install_transition(
            InstallStage::RollingBack(step),
            error,
            InstallEventView::Restarted(restart),
        ) == (InstallStage::Finished, error, InstallActionView::Fail(rollback_text(step, error, restart))),
{
}

} // verus!
