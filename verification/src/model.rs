use vstd::prelude::*;

use crate::text::owned;

verus! {

/// The version of this installer.
pub const APP_VERSION: &'static str = "0.4.6";

/// The DSH release that the installer bundles and installs first.
pub const DSH_VERSION: &'static str = "0.1.0-rc.8";

/// The npm distribution tags whose releases are offered as DSH updates, as
/// a JSON list.
pub const DSH_DIST_TAGS: &'static str = "[\"latest\",\"next\"]";

/// The pinned private Node.js version.
pub const NODE_VERSION: &'static str = "24.19.0";

/// The pinned pnpm version that corepack provides.
pub const PNPM_VERSION: &'static str = "10.18.3";

/// The Node.js distribution architecture.
pub const RUNTIME_ARCHITECTURE: &'static str = "win-x64";

/// Where the Harness web interface listens.
pub const HARNESS_URL: &'static str = "http://127.0.0.1:3080";

/// Language of the user interface.
#[derive(Clone, Copy, Debug, PartialEq, Eq, Structural)]
pub enum Locale {
    Chinese,
    English,
}

/// Which installer edition is running.
#[derive(Clone, Copy, Debug, PartialEq, Eq, Structural)]
pub enum Edition {
    Online,
    Offline,
}

/// Where the first setup stands.
#[derive(Clone, Copy, Debug, PartialEq, Eq, Structural)]
pub enum SetupPhase {
    NotInstalled,
    Preparing,
    Node,
    Dsh,
    Validating,
    Complete,
    Failed,
}

/// Where the Harness service stands.
#[derive(Clone, Copy, Debug, PartialEq, Eq, Structural)]
pub enum ServicePhase {
    Stopped,
    Starting,
    Stopping,
    Ready,
    Failed,
}

/// What an update replaces: the installer itself or DSH.
#[derive(Clone, Copy, Debug, PartialEq, Eq, Structural)]
pub enum UpdateTarget {
    Controller,
    Dsh,
}

/// The user's answer to an offered update.
#[derive(Clone, Copy, Debug, PartialEq, Eq, Structural)]
pub enum UpdateDecision {
    Install,
    Later,
    Skip,
}

/// Where an update stands.
#[derive(Clone, Copy, Debug, PartialEq, Eq, Structural)]
pub enum UpdatePhase {
    Checking,
    Available,
    Ready,
    Current,
    Failed,
    Installing,
}

impl Default for Locale {
    fn default() -> (r: Locale)
        ensures
            r == Locale::English,
    {
        Locale::English
    }
}

impl Default for SetupPhase {
    fn default() -> (r: SetupPhase)
        ensures
            r == SetupPhase::NotInstalled,
    {
        SetupPhase::NotInstalled
    }
}

impl Default for ServicePhase {
    fn default() -> (r: ServicePhase)
        ensures
            r == ServicePhase::Stopped,
    {
        ServicePhase::Stopped
    }
}

/// A percentage held as the exact fraction `numerator / denominator`.
#[derive(Clone, Copy, Debug, PartialEq, Eq, Structural)]
pub struct Percent {
    pub numerator: u128,
    pub denominator: u64,
}

/// The percentage `n`, as a fraction over one.
pub open spec fn whole_percent(n: u128) -> Percent {
    Percent { numerator: n, denominator: 1 }
}

impl Percent {
    /// The whole percentage `n`.
    pub fn whole(n: u128) -> (r: Percent)
        ensures
            r == whole_percent(n),
    {
        Percent { numerator: n, denominator: 1 }
    }
}

/// The state of an update shown to the user.
#[derive(Clone, Debug, PartialEq)]
pub struct UpdateState {
    pub target: UpdateTarget,
    pub phase: UpdatePhase,
    pub version: Option<String>,
    pub progress: Option<Percent>,
    pub resolved_items: Option<u64>,
    pub reused_items: Option<u64>,
    pub downloaded_items: Option<u64>,
    pub added_items: Option<u64>,
    pub total_items: Option<u64>,
    pub elapsed_seconds: Option<u64>,
    pub message_key: String,
}

/// The text of an optional string.
pub open spec fn optional_text(o: Option<String>) -> Option<Seq<char>> {
    match o {
        Some(s) => Some(s@),
        None => None,
    }
}

/// An update state without progress or package counts.
pub open spec fn plain_update(
    u: UpdateState,
    target: UpdateTarget,
    phase: UpdatePhase,
    version: Option<Seq<char>>,
    progress: Option<Percent>,
    message_key: Seq<char>,
) -> bool {
    &&& u.target == target
    &&& u.phase == phase
    &&& optional_text(u.version) == version
    &&& u.progress == progress
    &&& u.resolved_items is None
    &&& u.reused_items is None
    &&& u.downloaded_items is None
    &&& u.added_items is None
    &&& u.total_items is None
    &&& u.elapsed_seconds is None
    &&& u.message_key@ == message_key
}

impl UpdateState {
    /// An update state without package counts.
    pub fn plain(
        target: UpdateTarget,
        phase: UpdatePhase,
        version: Option<String>,
        progress: Option<Percent>,
        message_key: &str,
    ) -> (u: UpdateState)
        ensures
            plain_update(u, target, phase, optional_text(version), progress, message_key@),
    {
        UpdateState {
            target,
            phase,
            version,
            progress,
            resolved_items: None,
            reused_items: None,
            downloaded_items: None,
            added_items: None,
            total_items: None,
            elapsed_seconds: None,
            message_key: owned(message_key),
        }
    }
}

/// Everything the windows show about the installer.
#[derive(Clone, Debug)]
pub struct AppSnapshot {
    pub app_version: String,
    pub dsh_version: String,
    pub node_version: String,
    pub locale: Locale,
    pub edition: Edition,
    pub auto_check_dsh_updates: bool,
    pub setup_phase: SetupPhase,
    pub service_phase: ServicePhase,
    pub setup_complete: bool,
    pub progress: Percent,
    pub message_key: String,
    pub update: Option<UpdateState>,
}

impl AppSnapshot {
    /// The snapshot at start: a completed setup shows as complete at 100%,
    /// otherwise as not installed at 0%; the service is stopped and no
    /// update is shown.
    pub fn new(locale: Locale, edition: Edition, auto_check_dsh_updates: bool, setup_complete: bool) -> (s: AppSnapshot)
        ensures
            s.app_version@ == APP_VERSION@,
            s.dsh_version@ == DSH_VERSION@,
            s.node_version@ == NODE_VERSION@,
            s.locale == locale,
            s.edition == edition,
            s.auto_check_dsh_updates == auto_check_dsh_updates,
            s.setup_phase == (if setup_complete {
                SetupPhase::Complete
            } else {
                SetupPhase::NotInstalled
            }),
            s.service_phase == ServicePhase::Stopped,
            s.setup_complete == setup_complete,
            s.progress == whole_percent(if setup_complete {
                100
            } else {
                0
            }),
            s.message_key@ == (if setup_complete {
                "complete"@
            } else {
                "installCopy"@
            }),
            s.update is None,
    {
        AppSnapshot {
            app_version: owned(APP_VERSION),
            dsh_version: owned(DSH_VERSION),
            node_version: owned(NODE_VERSION),
            locale,
            edition,
            auto_check_dsh_updates,
            setup_phase: if setup_complete {
                SetupPhase::Complete
            } else {
                SetupPhase::NotInstalled
            },
            service_phase: ServicePhase::Stopped,
            setup_complete,
            progress: Percent::whole(
                if setup_complete {
                    100
                } else {
                    0
                },
            ),
            message_key: if setup_complete {
                owned("complete")
            } else {
                owned("installCopy")
            },
            update: None,
        }
    }
}

/// A setup progress event.
#[derive(Clone, Debug)]
pub struct SetupProgress {
    pub phase: SetupPhase,
    pub percent: Percent,
    pub message_key: String,
    pub detail: Option<String>,
    pub resolved_items: Option<u64>,
    pub reused_items: Option<u64>,
    pub downloaded_items: Option<u64>,
    pub added_items: Option<u64>,
    pub total_items: Option<u64>,
    pub elapsed_seconds: Option<u64>,
}

/// A service state event.
#[derive(Clone, Debug)]
pub struct ServiceState {
    pub phase: ServicePhase,
    pub message_key: String,
}

/// One line of the log.
#[derive(Clone, Debug)]
pub struct LogLine {
    pub timestamp: String,
    pub source: String,
    pub line: String,
}

impl LogLine {
    /// A copy with the same texts.
    pub fn duplicate(&self) -> (r: LogLine)
        ensures
            r.timestamp@ == self.timestamp@,
            r.source@ == self.source@,
            r.line@ == self.line@,
    {
        LogLine {
            timestamp: self.timestamp.clone(),
            source: self.source.clone(),
            line: self.line.clone(),
        }
    }
}

} // verus!
