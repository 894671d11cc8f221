//! The decisions of the update checks and of the user's answers to an
//! offered update: which result a check reports, what is offered, what is
//! shown and which messages a failed installation leaves.
use vstd::prelude::*;

use crate::model::{
    Percent, UpdateDecision, UpdatePhase, UpdateState, UpdateTarget, optional_text,
    plain_update, whole_percent,
};
use crate::pnpm::{PnpmProgress, progress_percent, stage_message, stage_message_key};
use crate::text::{concat, concat3, concat4, contains, has_substring, owned, same_text};
use crate::versions::{semver_order, semver_version_error, version_error, version_order};

verus! {

/// The texts of a `Result<bool, String>`.
pub open spec fn found_view(r: Result<bool, String>) -> Result<bool, Seq<char>> {
    match r {
        Ok(b) => Ok(b),
        Err(e) => Err(e@),
    }
}

/// The outcome of a check of both channels: an available DSH update wins;
/// otherwise every failure is reported, each under its channel's name.
pub open spec fn merged_result(controller_error: Option<Seq<char>>, dsh: Result<bool, Seq<char>>) -> Result<
    bool,
    Seq<char>,
> {
    match (controller_error, dsh) {
        (_, Ok(true)) => Ok(true),
        (None, Ok(false)) => Ok(false),
        (Some(c), Ok(false)) => Err("Controller update check failed: "@ + c),
        (None, Err(d)) => Err("DSH update check failed: "@ + d),
        (Some(c), Err(d)) => Err(
            "Controller update check failed: "@ + c + "; DSH update check failed: "@ + d,
        ),
    }
}

/// Combines a failed or empty installer check with the DSH check.
pub fn merge_update_results(controller_error: Option<String>, dsh_result: Result<bool, String>) -> (r: Result<
    bool,
    String,
>)
    ensures
        found_view(r) == merged_result(optional_text(controller_error), found_view(dsh_result)),
{
    match (controller_error, dsh_result) {
        (_, Ok(true)) => Ok(true),
        (None, Ok(false)) => Ok(false),
        (Some(error), Ok(false)) => Err(concat(
            "Controller update check failed: ",
            error.as_str(),
        )),
        (None, Err(error)) => Err(concat("DSH update check failed: ", error.as_str())),
        (Some(controller), Err(dsh)) => Err(concat4(
            "Controller update check failed: ",
            controller.as_str(),
            "; DSH update check failed: ",
            dsh.as_str(),
        )),
    }
}

/// The notice that ends a check: a manual check that found nothing reports
/// that everything is current, a failed manual check reports the failure,
/// and an automatic check or one that found an update shows no such notice.
pub open spec fn notice_phase(manual: bool, result: Result<bool, Seq<char>>) -> Option<UpdatePhase> {
    if !manual {
        None
    } else {
        match result {
            Ok(false) => Some(UpdatePhase::Current),
            Err(_) => Some(UpdatePhase::Failed),
            Ok(true) => None,
        }
    }
}

/// The notice that ends a check.
pub fn completion_notice_phase(manual: bool, result: &Result<bool, String>) -> (r: Option<UpdatePhase>)
    ensures
        r == notice_phase(manual, found_view(*result)),
{
    if !manual {
        return None;
    }
    match result {
        Ok(false) => Some(UpdatePhase::Current),
        Err(_) => Some(UpdatePhase::Failed),
        Ok(true) => None,
    }
}

/// Whether an answer about `target` and `version` still concerns the update
/// on offer: one available or ready, of that target and that version.
pub open spec fn request_matches(update: UpdateState, target: UpdateTarget, version: Seq<char>) -> bool {
    &&& (update.phase == UpdatePhase::Available || update.phase == UpdatePhase::Ready)
    &&& update.target == target
    &&& optional_text(update.version) == Some(version)
}

/// Whether an answer still concerns the update on offer.
pub fn update_request_matches(update: &UpdateState, target: UpdateTarget, version: &str) -> (r: bool)
    ensures
        r == request_matches(*update, target, version@),
{
    let phase_matches = match update.phase {
        UpdatePhase::Available | UpdatePhase::Ready => true,
        _ => false,
    };
    let version_matches = match &update.version {
        Some(v) => same_text(v.as_str(), version),
        None => false,
    };
    phase_matches && update.target == target && version_matches
}

/// The answer to an update request: refused when nothing is on offer or the
/// offer changed since it was shown.
pub open spec fn request_check(update: Option<UpdateState>, target: UpdateTarget, version: Seq<char>) -> Result<
    (),
    Seq<char>,
> {
    match update {
        None => Err("No update is available."@),
        Some(u) => if request_matches(u, target, version) {
            Ok(())
        } else {
            Err("The update request no longer matches the available update."@)
        },
    }
}

pub open spec fn unit_view(r: Result<(), String>) -> Result<(), Seq<char>> {
    match r {
        Ok(()) => Ok(()),
        Err(e) => Err(e@),
    }
}

/// Checks an answer against the update on offer.
pub fn check_update_request(update: Option<&UpdateState>, target: UpdateTarget, version: &str) -> (r: Result<
    (),
    String,
>)
    ensures
        unit_view(r) == request_check(
            match update {
                Some(u) => Some(*u),
                None => None,
            },
            target,
            version@,
        ),
{
    match update {
        None => Err(owned("No update is available.")),
        Some(u) => {
            if update_request_matches(u, target, version) {
                Ok(())
            } else {
                Err(owned("The update request no longer matches the available update."))
            }
        },
    }
}

/// Only a DSH download that is being prepared can be paused.
pub open spec fn pauseable(update: UpdateState) -> bool {
    update.target == UpdateTarget::Dsh && update.phase == UpdatePhase::Checking
}

/// Whether the update in progress can be paused.
pub fn is_pauseable_update(update: &UpdateState) -> (r: bool)
    ensures
        r == pauseable(*update),
{
    update.target == UpdateTarget::Dsh && update.phase == UpdatePhase::Checking
}

/// Whether a pause request is accepted: an update must be running and the
/// update on offer must be a DSH download being prepared.
pub fn pause_allowed(update_running: bool, update: Option<&UpdateState>) -> (r: Result<(), String>)
    ensures
        r is Ok <==> (update_running && match update {
            Some(u) => pauseable(*u),
            None => false,
        }),
        unit_view(r) is Err ==> unit_view(r) == Err::<(), Seq<char>>(
            "No DSH download is currently running."@,
        ),
{
    let pauseable = match update {
        Some(u) => is_pauseable_update(u),
        None => false,
    };
    if !update_running || !pauseable {
        return Err(owned("No DSH download is currently running."));
    }
    Ok(())
}

/// What follows the installer check within one check of both channels.
pub enum AfterControllerCheck {
    /// The check is over with this result.
    Finished(Result<bool, String>),
    /// DSH is checked next; the installer check's error, if it failed, is
    /// reported with the DSH result.
    CheckDsh(Option<String>),
}

/// An installer update that was found ends the check; otherwise DSH is
/// checked when the check is manual or automatic DSH checks are on, and
/// else the installer result is the result.
pub open spec fn after_controller(controller: Result<bool, Seq<char>>, check_dsh: bool) -> (
    bool,
    Result<bool, Seq<char>>,
) {
    match controller {
        Ok(true) => (false, Ok(true)),
        Ok(false) => if check_dsh {
            (true, Ok(false))
        } else {
            (false, Ok(false))
        },
        Err(e) => if check_dsh {
            (true, Err(e))
        } else {
            (false, Err("Controller update check failed: "@ + e))
        },
    }
}

/// What follows the installer check.
pub fn after_controller_check(controller_result: Result<bool, String>, should_check_dsh: bool) -> (r: AfterControllerCheck)
    ensures
        match r {
            AfterControllerCheck::Finished(result) => {
                &&& !after_controller(found_view(controller_result), should_check_dsh).0
                &&& found_view(result) == after_controller(
                    found_view(controller_result),
                    should_check_dsh,
                ).1
            },
            AfterControllerCheck::CheckDsh(error) => {
                &&& after_controller(found_view(controller_result), should_check_dsh).0
                &&& match after_controller(found_view(controller_result), should_check_dsh).1 {
                    Ok(_) => error is None,
                    Err(e) => optional_text(error) == Some(e),
                }
            },
        },
{
    match controller_result {
        Ok(true) => AfterControllerCheck::Finished(Ok(true)),
        Ok(false) => {
            if should_check_dsh {
                AfterControllerCheck::CheckDsh(None)
            } else {
                AfterControllerCheck::Finished(Ok(false))
            }
        },
        Err(error) => {
            if should_check_dsh {
                AfterControllerCheck::CheckDsh(Some(error))
            } else {
                AfterControllerCheck::Finished(
                    Err(concat("Controller update check failed: ", error.as_str())),
                )
            }
        },
    }
}

/// The phrase by which a release that the private Node.js runtime cannot
/// run is recognised.
pub open spec fn node_blocked_phrase() -> Seq<char> {
    "requires a newer private Node.js runtime"@
}

/// The message key of a failed manual check.
pub open spec fn failed_check_key(error: Seq<char>) -> Seq<char> {
    if has_substring(error, node_blocked_phrase()) {
        "nodeVersionBlocked"@
    } else {
        "updateCheckFailed"@
    }
}

/// The message key of a failed manual check: a release blocked by the
/// Node.js requirement has its own message.
pub fn failed_check_message_key(error: &str) -> (r: String)
    ensures
        r@ == failed_check_key(error@),
{
    if contains(error, "requires a newer private Node.js runtime") {
        owned("nodeVersionBlocked")
    } else {
        owned("updateCheckFailed")
    }
}

/// The notice of a manual check that found everything current.
pub fn current_notice_state() -> (u: UpdateState)
    ensures
        plain_update(u, UpdateTarget::Controller, UpdatePhase::Current, None, None, "upToDate"@),
{
    UpdateState::plain(UpdateTarget::Controller, UpdatePhase::Current, None, None, "upToDate")
}

/// The notice of a failed manual check.
pub fn failed_notice_state(error: &str) -> (u: UpdateState)
    ensures
        plain_update(
            u,
            UpdateTarget::Controller,
            UpdatePhase::Failed,
            None,
            None,
            failed_check_key(error@),
        ),
{
    let key = failed_check_message_key(error);
    UpdateState::plain(UpdateTarget::Controller, UpdatePhase::Failed, None, None, key.as_str())
}

/// The state shown while a check runs.
pub fn checking_state() -> (u: UpdateState)
    ensures
        plain_update(
            u,
            UpdateTarget::Controller,
            UpdatePhase::Checking,
            None,
            None,
            "checkingUpdates"@,
        ),
{
    UpdateState::plain(UpdateTarget::Controller, UpdatePhase::Checking, None, None, "checkingUpdates")
}

/// What a failed DSH release selection means for a check: an automatic
/// check passes over a release blocked by the Node.js requirement as no
/// update; anything else is the check's error.
pub open spec fn blocked_release(manual: bool, error: Seq<char>) -> Result<bool, Seq<char>> {
    if !manual && has_substring(error, node_blocked_phrase()) {
        Ok(false)
    } else {
        Err(error)
    }
}

/// The check's result after the DSH release selection failed.
pub fn blocked_release_result(manual: bool, error: String) -> (r: Result<bool, String>)
    ensures
        found_view(r) == blocked_release(manual, error@),
{
    if !manual && contains(error.as_str(), "requires a newer private Node.js runtime") {
        Ok(false)
    } else {
        Err(error)
    }
}

/// Whether an offer is announced with the prompt: always for a manual check
/// and for the first automatic check after start, and otherwise only for a
/// version not announced before.
pub open spec fn announce(manual: bool, notify_available: bool, version: Seq<char>, last_notified: Option<Seq<char>>) -> bool {
    manual || notify_available || last_notified != Some(version)
}

/// Whether the installer update `version` is offered, and if so whether it
/// is announced with the prompt: an automatic check passes over a skipped
/// version.
pub open spec fn controller_offer(
    manual: bool,
    notify_available: bool,
    version: Seq<char>,
    skipped: Option<Seq<char>>,
    last_notified: Option<Seq<char>>,
) -> Option<bool> {
    if !manual && skipped == Some(version) {
        None
    } else {
        Some(announce(manual, notify_available, version, last_notified))
    }
}

fn optional_matches(o: Option<&str>, version: &str) -> (r: bool)
    ensures
        r == (match o {
            Some(t) => t@ == version@,
            None => false,
        }),
{
    match o {
        Some(t) => same_text(t, version),
        None => false,
    }
}

pub open spec fn optional_str_text(o: Option<&str>) -> Option<Seq<char>> {
    match o {
        Some(t) => Some(t@),
        None => None,
    }
}

/// Whether the installer update is offered, and whether with the prompt.
pub fn controller_update_offer(
    manual: bool,
    notify_available: bool,
    version: &str,
    skipped: Option<&str>,
    last_notified: Option<&str>,
) -> (r: Option<bool>)
    ensures
        r == controller_offer(
            manual,
            notify_available,
            version@,
            optional_str_text(skipped),
            optional_str_text(last_notified),
        ),
{
    if !manual && optional_matches(skipped, version) {
        return None;
    }
    Some(manual || notify_available || !optional_matches(last_notified, version))
}

/// The offer of the installer update `version`.
pub fn controller_update_state(version: &str) -> (u: UpdateState)
    ensures
        plain_update(
            u,
            UpdateTarget::Controller,
            UpdatePhase::Available,
            Some(version@),
            None,
            "controllerUpdate"@,
        ),
{
    UpdateState::plain(
        UpdateTarget::Controller,
        UpdatePhase::Available,
        Some(owned(version)),
        None,
        "controllerUpdate",
    )
}

/// Whether the DSH release `latest` is offered over the running `current`
/// one, and if so whether with the prompt: only a release of higher semver
/// precedence is offered, and an automatic check passes over a skipped one.
/// A version that is not semver is an error, with the parser's message.
pub open spec fn dsh_offer(
    manual: bool,
    notify_available: bool,
    current: Seq<char>,
    latest: Seq<char>,
    skipped: Option<Seq<char>>,
    last_notified: Option<Seq<char>>,
) -> Result<Option<bool>, Seq<char>> {
    match semver_version_error(current) {
        Some(e) => Err(e),
        None => match semver_version_error(latest) {
            Some(e) => Err(e),
            None => if semver_order(latest, current) <= 0 || (!manual && skipped == Some(latest)) {
                Ok(None)
            } else {
                Ok(Some(announce(manual, notify_available, latest, last_notified)))
            },
        },
    }
}

pub open spec fn offer_view(r: Result<Option<bool>, String>) -> Result<Option<bool>, Seq<char>> {
    match r {
        Ok(o) => Ok(o),
        Err(e) => Err(e@),
    }
}

/// Whether the DSH release is offered, and whether with the prompt.
pub fn dsh_update_offer(
    manual: bool,
    notify_available: bool,
    current: &str,
    latest: &str,
    skipped: Option<&str>,
    last_notified: Option<&str>,
) -> (r: Result<Option<bool>, String>)
    ensures
        offer_view(r) == dsh_offer(
            manual,
            notify_available,
            current@,
            latest@,
            optional_str_text(skipped),
            optional_str_text(last_notified),
        ),
{
    if let Some(error) = version_error(current) {
        return Err(error);
    }
    if let Some(error) = version_error(latest) {
        return Err(error);
    }
    if version_order(latest, current) <= 0 || (!manual && optional_matches(skipped, latest)) {
        return Ok(None);
    }
    Ok(Some(manual || notify_available || !optional_matches(last_notified, latest)))
}

/// The offer of DSH `version`: ready to install at 100% when a validated
/// copy is staged, otherwise available for download.
pub open spec fn dsh_offer_state(u: UpdateState, version: Seq<char>, staged: bool) -> bool {
    if staged {
        plain_update(
            u,
            UpdateTarget::Dsh,
            UpdatePhase::Ready,
            Some(version),
            Some(whole_percent(100)),
            "dshUpdate"@,
        )
    } else {
        plain_update(
            u,
            UpdateTarget::Dsh,
            UpdatePhase::Available,
            Some(version),
            None,
            "dshUpdateAvailable"@,
        )
    }
}

/// The offer of DSH `version`.
pub fn dsh_update_state(version: &str, staged: bool) -> (u: UpdateState)
    ensures
        dsh_offer_state(u, version@, staged),
{
    if staged {
        UpdateState::plain(
            UpdateTarget::Dsh,
            UpdatePhase::Ready,
            Some(owned(version)),
            Some(Percent::whole(100)),
            "dshUpdate",
        )
    } else {
        UpdateState::plain(
            UpdateTarget::Dsh,
            UpdatePhase::Available,
            Some(owned(version)),
            None,
            "dshUpdateAvailable",
        )
    }
}

/// A confirmed DSH update is downloaded first when it is only available,
/// not yet staged.
pub open spec fn needs_download(target: UpdateTarget, phase: UpdatePhase) -> bool {
    target == UpdateTarget::Dsh && phase == UpdatePhase::Available
}

/// Whether a confirmed update has to be downloaded before it is installed.
pub fn needs_preparation(target: UpdateTarget, phase: UpdatePhase) -> (r: bool)
    ensures
        r == needs_download(target, phase),
{
    target == UpdateTarget::Dsh && phase == UpdatePhase::Available
}

/// The state shown when the installation of a confirmed update begins: a
/// DSH update starts at 72%, an installer update at 10%.
pub fn installing_state(target: UpdateTarget, version: &str) -> (u: UpdateState)
    ensures
        plain_update(
            u,
            target,
            UpdatePhase::Installing,
            Some(version@),
            Some(
                whole_percent(
                    if target == UpdateTarget::Dsh {
                        72
                    } else {
                        10
                    },
                ),
            ),
            "installingUpdate"@,
        ),
{
    let percent = if target == UpdateTarget::Dsh {
        72
    } else {
        10
    };
    UpdateState::plain(
        target,
        UpdatePhase::Installing,
        Some(owned(version)),
        Some(Percent::whole(percent)),
        "installingUpdate",
    )
}

/// The state shown after a confirmed update failed to install.
pub fn failed_install_state(target: UpdateTarget, version: &str) -> (u: UpdateState)
    ensures
        plain_update(u, target, UpdatePhase::Failed, Some(version@), None, "updateInstallFailed"@),
{
    UpdateState::plain(
        target,
        UpdatePhase::Failed,
        Some(owned(version)),
        None,
        "updateInstallFailed",
    )
}

/// A DSH work state with a fixed percentage.
pub fn dsh_work_state(version: &str, phase: UpdatePhase, message_key: &str, percent: u128) -> (u: UpdateState)
    ensures
        plain_update(
            u,
            UpdateTarget::Dsh,
            phase,
            Some(version@),
            Some(whole_percent(percent)),
            message_key@,
        ),
{
    UpdateState::plain(
        UpdateTarget::Dsh,
        phase,
        Some(owned(version)),
        Some(Percent::whole(percent)),
        message_key,
    )
}

/// A DSH work state without a percentage.
pub fn dsh_indeterminate_state(version: &str, phase: UpdatePhase, message_key: &str) -> (u: UpdateState)
    ensures
        plain_update(u, UpdateTarget::Dsh, phase, Some(version@), None, message_key@),
{
    UpdateState::plain(UpdateTarget::Dsh, phase, Some(owned(version)), None, message_key)
}

/// The state shown while a confirmed DSH download installs its packages:
/// the package counts and the stage's message and percentage.
pub fn dsh_package_state(version: &str, pnpm: &PnpmProgress) -> (u: UpdateState)
    ensures
        u.target == UpdateTarget::Dsh,
        u.phase == UpdatePhase::Checking,
        optional_text(u.version) == Some(version@),
        u.progress == Some(progress_percent(*pnpm)),
        u.resolved_items == Some(pnpm.resolved_items),
        u.reused_items == Some(pnpm.reused_items),
        u.downloaded_items == Some(pnpm.downloaded_items),
        u.added_items == Some(pnpm.added_items),
        u.total_items == pnpm.total_items,
        u.elapsed_seconds == Some(pnpm.elapsed_seconds),
        u.message_key@ == stage_message(pnpm.stage),
{
    UpdateState {
        target: UpdateTarget::Dsh,
        phase: UpdatePhase::Checking,
        version: Some(owned(version)),
        progress: Some(pnpm.percent()),
        resolved_items: Some(pnpm.resolved_items),
        reused_items: Some(pnpm.reused_items),
        downloaded_items: Some(pnpm.downloaded_items),
        added_items: Some(pnpm.added_items),
        total_items: pnpm.total_items,
        elapsed_seconds: Some(pnpm.elapsed_seconds),
        message_key: stage_message_key(pnpm.stage),
    }
}

/// The seconds until the next automatic check: a day after a check that
/// succeeded, an hour after one that failed.
pub fn next_check_delay_seconds(succeeded: bool) -> (r: u64)
    ensures
        r == (if succeeded {
            86400u64
        } else {
            3600u64
        }),
{
    if succeeded {
        24 * 60 * 60
    } else {
        60 * 60
    }
}

/// The step of a DSH installation that failed after the running service
/// was stopped, and so needed the previous version restarted.
#[derive(Clone, Copy, Debug, PartialEq, Eq, Structural)]
pub enum RollbackStep {
    /// The staged runtime could not be moved into place.
    Prepare,
    /// The moved runtime could not be resolved.
    Resolve,
    /// The updated service did not start.
    Start,
    /// The runtime pointer could not be switched.
    Activate,
    /// The installer update could not be applied.
    InstallerApply,
}

/// The message of a failed step, given whether the previous version could
/// be restarted.
pub open spec fn rollback_text(step: RollbackStep, error: Seq<char>, restart_error: Option<Seq<char>>) -> Seq<char> {
    match restart_error {
        None => match step {
            RollbackStep::Prepare => "The update could not be prepared and the previous DSH version was restarted: "@
                + error,
            RollbackStep::Resolve => "The moved update could not be resolved and the previous DSH version was restarted: "@
                + error,
            RollbackStep::Start => "The updated service failed to start; the previous DSH version was restarted: "@
                + error,
            RollbackStep::Activate => "The updated service passed validation but could not be activated; the previous DSH version was restarted: "@
                + error,
            RollbackStep::InstallerApply => "The Installer update could not be applied: "@ + error,
        },
        Some(r) => match step {
            RollbackStep::Prepare => "The update could not be prepared ("@ + error
                + ") and the previous DSH version could not be restarted ("@ + r + ")."@,
            RollbackStep::Resolve => "The moved update could not be resolved ("@ + error
                + ") and the previous DSH version could not be restarted ("@ + r + ")."@,
            RollbackStep::Start => "The updated service failed to start ("@ + error
                + ") and the previous DSH version could not be restarted ("@ + r + ")."@,
            RollbackStep::Activate => "The update could not be activated ("@ + error
                + ") and the previous DSH version could not be restarted ("@ + r + ")."@,
            RollbackStep::InstallerApply => "The Installer update could not be applied ("@ + error
                + ") and Harness could not be restarted ("@ + r + ")."@,
        },
    }
}

fn five(a: &str, b: &str, c: &str, d: &str, e: &str) -> (r: String)
    ensures
        r@ == a@ + b@ + c@ + d@ + e@,
{
    let mut r = concat4(a, b, c, d);
    r.append(e);
    r
}

/// The error that a failed step reports after the restart of the previous
/// version was tried.
pub fn rollback_message(step: RollbackStep, error: &str, restart_error: Option<&str>) -> (r: String)
    ensures
        r@ == rollback_text(step, error@, optional_str_text(restart_error)),
{
    match restart_error {
        None => match step {
            RollbackStep::Prepare => concat(
                "The update could not be prepared and the previous DSH version was restarted: ",
                error,
            ),
            RollbackStep::Resolve => concat(
                "The moved update could not be resolved and the previous DSH version was restarted: ",
                error,
            ),
            RollbackStep::Start => concat(
                "The updated service failed to start; the previous DSH version was restarted: ",
                error,
            ),
            RollbackStep::Activate => concat(
                "The updated service passed validation but could not be activated; the previous DSH version was restarted: ",
                error,
            ),
            RollbackStep::InstallerApply => concat(
                "The Installer update could not be applied: ",
                error,
            ),
        },
        Some(restart) => match step {
            RollbackStep::Prepare => five(
                "The update could not be prepared (",
                error,
                ") and the previous DSH version could not be restarted (",
                restart,
                ").",
            ),
            RollbackStep::Resolve => five(
                "The moved update could not be resolved (",
                error,
                ") and the previous DSH version could not be restarted (",
                restart,
                ").",
            ),
            RollbackStep::Start => five(
                "The updated service failed to start (",
                error,
                ") and the previous DSH version could not be restarted (",
                restart,
                ").",
            ),
            RollbackStep::Activate => five(
                "The update could not be activated (",
                error,
                ") and the previous DSH version could not be restarted (",
                restart,
                ").",
            ),
            RollbackStep::InstallerApply => five(
                "The Installer update could not be applied (",
                error,
                ") and Harness could not be restarted (",
                restart,
                ").",
            ),
        },
    }
}

/// Whether `name` is one of `kept`.
fn is_kept(kept: &Vec<String>, name: &str) -> (r: bool)
    ensures
        r == crate::text::texts(kept@).contains(name@),
{
    let mut i: usize = 0;
    while i < kept.len()
        invariant
            i <= kept@.len(),
            forall|j: int| 0 <= j < i ==> kept@[j]@ != name@,
        decreases kept@.len() - i,
    {
        if same_text(kept[i].as_str(), name) {
            assert(crate::text::texts(kept@)[i as int] == name@);
            return true;
        }
        i = i + 1;
    }
    assert(!crate::text::texts(kept@).contains(name@)) by {
        if crate::text::texts(kept@).contains(name@) {
            let j = choose|j: int|
                0 <= j < crate::text::texts(kept@).len() && crate::text::texts(kept@)[j] == name@;
            assert(kept@[j]@ == name@);
        }
    }
    false
}

/// The version directories to remove after an update: every one that
/// neither runtime pointer names, in their order.
pub open spec fn prunable(kept: Seq<Seq<char>>, directories: Seq<Seq<char>>) -> Seq<Seq<char>> {
    directories.filter(|d: Seq<char>| !kept.contains(d))
}

/// The version directories to remove after an update.
pub fn versions_to_prune(kept: &Vec<String>, directories: &Vec<String>) -> (r: Vec<String>)
    ensures
        crate::text::texts(r@) == prunable(crate::text::texts(kept@), crate::text::texts(directories@)),
{
    let ghost k = crate::text::texts(kept@);
    let ghost d = crate::text::texts(directories@);
    let mut r: Vec<String> = Vec::new();
    let mut i: usize = 0;
    assert(d.take(0).filter(|x: Seq<char>| !k.contains(x)) =~= Seq::<Seq<char>>::empty());
    while i < directories.len()
        invariant
            k == crate::text::texts(kept@),
            d == crate::text::texts(directories@),
            i <= directories@.len(),
            crate::text::texts(r@) == d.take(i as int).filter(|x: Seq<char>| !k.contains(x)),
        decreases directories@.len() - i,
    {
        let ghost before = r@;
        assert(d.take(i + 1).drop_last() =~= d.take(i as int));
        reveal_with_fuel(Seq::filter, 1);
        if !is_kept(kept, directories[i].as_str()) {
            r.push(directories[i].clone());
            assert(crate::text::texts(r@) =~= crate::text::texts(before).push(d[i as int]));
        }
        i = i + 1;
    }
    assert(d.take(directories@.len() as int) =~= d);
    r
}

/// A failed installer check can never make the whole check claim that
/// everything is current: with an installer error the result is an
/// available DSH update or an error.
pub proof fn lemma_failed_controller_check_is_not_current(error: Seq<char>, dsh: Result<bool, Seq<char>>)
    ensures
        merged_result(Some(error), dsh) != Ok::<bool, Seq<char>>(false),
        merged_result(Some(error), dsh) is Err <==> dsh != Ok::<bool, Seq<char>>(true),
{
}

/// Only a manual check ends with a notice; an automatic check never shows
/// one, and a manual check that found an update shows the offer instead.
pub proof fn lemma_only_manual_checks_notify(manual: bool, result: Result<bool, Seq<char>>)
    ensures
        !manual ==> notice_phase(manual, result) is None,
        notice_phase(manual, result) is Some ==> result != Ok::<bool, Seq<char>>(true),
{
}

/// An automatic check never offers a skipped version, of either channel.
pub proof fn lemma_skipped_versions_are_not_offered(
    notify_available: bool,
    current: Seq<char>,
    version: Seq<char>,
    last_notified: Option<Seq<char>>,
)
    ensures
        controller_offer(false, notify_available, version, Some(version), last_notified) is None,
        dsh_offer(false, notify_available, current, version, Some(version), last_notified) is Ok
            ==> dsh_offer(false, notify_available, current, version, Some(version), last_notified)
            == Ok::<Option<bool>, Seq<char>>(None),
{
}

/// The error by which a paused DSH download ends its work.
pub const UPDATE_PAUSED_ERROR: &'static str = "The update was paused by the user.";

/// Whether an error is the pause of a DSH download.
pub fn is_pause_error(error: &str) -> (r: bool)
    ensures
        r == (error@ == UPDATE_PAUSED_ERROR@),
{
    same_text(error, UPDATE_PAUSED_ERROR)
}

/// The pause error once the user paused the download, else nothing.
pub fn ensure_update_not_paused(cancelled: bool) -> (r: Result<(), String>)
    ensures
        r is Ok <==> !cancelled,
        r matches Err(e) ==> e@ == UPDATE_PAUSED_ERROR@,
{
    if cancelled {
        Err(owned(UPDATE_PAUSED_ERROR))
    } else {
        Ok(())
    }
}

/// The free space a DSH download needs: 700 MiB.
pub open spec fn update_space_bytes() -> u64 {
    734003200
}

/// Checks that the disk has room for a DSH download.
pub fn check_update_space(available: u64) -> (r: Result<(), String>)
    ensures
        r is Ok <==> available >= update_space_bytes(),
        r matches Err(e) ==> e@ == "At least 700 MB of free disk space is required to download an update."@,
{
    if available < 700 * 1024 * 1024 {
        Err(owned("At least 700 MB of free disk space is required to download an update."))
    } else {
        Ok(())
    }
}

/// Checks that a staged download installed the confirmed version: the
/// `version` field of the installed manifest must be that version.
pub fn check_staged_manifest(manifest_text: &str, version: &str) -> (r: Result<(), String>)
    ensures
        r is Ok <==> crate::json::json_field_str(manifest_text@, "version"@) == Some(version@),
        r matches Err(e) ==> e@ == "The staged DSH package version is invalid."@,
{
    let installed = crate::json::json_str_field(manifest_text, "version");
    let installed_text = match &installed {
        Some(v) => Some(v.as_str()),
        None => None,
    };
    check_staged_version(installed_text, version)
}

/// Checks the `version` field read from a staged package manifest, if it
/// has one as a string, against the confirmed version.
pub fn check_staged_version(installed: Option<&str>, version: &str) -> (r: Result<(), String>)
    ensures
        r is Ok <==> optional_str_text(installed) == Some(version@),
        r matches Err(e) ==> e@ == "The staged DSH package version is invalid."@,
{
    let matches = match installed {
        Some(v) => same_text(v, version),
        None => false,
    };
    if matches {
        Ok(())
    } else {
        Err(owned("The staged DSH package version is invalid."))
    }
}

/// Checks that the installer update still on offer is the confirmed one.
pub fn check_installer_update(available: Option<&str>, expected: &str) -> (r: Result<(), String>)
    ensures
        r is Ok <==> optional_str_text(available) == Some(expected@),
        r matches Err(e) ==> e@ == (if available is None {
            "The controller update is no longer available."@
        } else {
            "The controller update no longer matches the confirmed version."@
        }),
{
    match available {
        None => Err(owned("The controller update is no longer available.")),
        Some(version) => {
            if same_text(version, expected) {
                Ok(())
            } else {
                Err(owned("The controller update no longer matches the confirmed version."))
            }
        },
    }
}


/// What the update state shows once a check ended.
pub enum CheckEnd {
    /// The state stays as the check left it: an offer was shown.
    Keep,
    /// The state is cleared.
    Clear,
    /// This notice is shown with the prompt.
    Notify(UpdateState),
}

/// How a check ends: a check paused by the user clears the state and
/// reports success; otherwise a manual check shows that everything is
/// current or that it failed, a check that found nothing or failed clears
/// the state, and one that found an update keeps its offer. The check
/// reports its failure, if any.
pub open spec fn check_end_spec(manual: bool, result: Result<bool, Seq<char>>, end: CheckEnd, reply: Result<(), Seq<char>>) -> bool {
    if result matches Err(e) && e == UPDATE_PAUSED_ERROR@ {
        end is Clear && reply is Ok
    } else {
        &&& reply == match result {
            Ok(_) => Ok::<(), Seq<char>>(()),
            Err(e) => Err(e),
        }
        &&& match notice_phase(manual, result) {
            Some(UpdatePhase::Current) => end matches CheckEnd::Notify(u) && plain_update(
                u,
                UpdateTarget::Controller,
                UpdatePhase::Current,
                None,
                None,
                "upToDate"@,
            ),
            Some(_) => end matches CheckEnd::Notify(u) && plain_update(
                u,
                UpdateTarget::Controller,
                UpdatePhase::Failed,
                None,
                None,
                failed_check_key(result->Err_0),
            ),
            None => if result == Ok::<bool, Seq<char>>(true) {
                end is Keep
            } else {
                end is Clear
            },
        }
    }
}

/// How a check ends, and what it reports.
pub fn finish_check(manual: bool, result: Result<bool, String>) -> (r: (CheckEnd, Result<(), String>))
    ensures
        check_end_spec(manual, found_view(result), r.0, unit_view(r.1)),
{
    if let Err(error) = &result {
        if is_pause_error(error.as_str()) {
            return (CheckEnd::Clear, Ok(()));
        }
    }
    let end = match completion_notice_phase(manual, &result) {
        Some(UpdatePhase::Current) => CheckEnd::Notify(current_notice_state()),
        Some(_) => {
            let notice = match &result {
                Err(error) => failed_notice_state(error.as_str()),
                Ok(_) => failed_notice_state(""),
            };
            CheckEnd::Notify(notice)
        },
        None => match &result {
            Ok(true) => CheckEnd::Keep,
            _ => CheckEnd::Clear,
        },
    };
    let reply = match result {
        Ok(_) => Ok(()),
        Err(error) => Err(error),
    };
    (end, reply)
}

/// A paused check is no failure: it ends quietly, whether manual or not.
pub proof fn lemma_paused_checks_end_quietly(manual: bool, end: CheckEnd, reply: Result<(), Seq<char>>)
    requires
        check_end_spec(manual, Err(UPDATE_PAUSED_ERROR@), end, reply),
    ensures
        end is Clear,
        reply is Ok,
{
}

} // verus!
