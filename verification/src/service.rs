//! The Harness service: which start request launches it, the generation
//! counter that keeps stale tasks from changing its state, the start marker
//! it prints, and the supervision of its start attempts.
use vstd::prelude::*;

use crate::model::ServicePhase;
use crate::text::{owned, same_text, texts, trim, trimmed};

verus! {

/// The line that the Harness service prints once its web server listens.
pub open spec fn start_marker() -> Seq<char> {
    "dsh web: http://127.0.0.1:3080"@
}

/// Whether a line of the service's output is its start marker, apart from
/// surrounding whitespace.
pub fn is_harness_start_marker(line: &str) -> (r: bool)
    ensures
        r == (trim(line@) == start_marker()),
{
    same_text(trimmed(line), "dsh web: http://127.0.0.1:3080")
}

/// Counts the launches and stops of the service, so that a task of an
/// earlier launch cannot change the state of a later one.
#[derive(Clone, Copy, Debug, PartialEq, Eq, Structural)]
pub struct ServiceControl {
    pub generation: u64,
}

impl Default for ServiceControl {
    fn default() -> (c: ServiceControl)
        ensures
            c.generation == 0,
    {
        ServiceControl { generation: 0 }
    }
}

/// The generation after `g`, wrapping at the end of the range.
pub open spec fn next_generation(g: u64) -> u64 {
    if g == u64::MAX {
        0
    } else {
        (g + 1) as u64
    }
}

impl ServiceControl {
    /// Whether `generation` is the current one.
    pub fn is_current(&self, generation: u64) -> (r: bool)
        ensures
            r == (self.generation == generation),
    {
        self.generation == generation
    }

    /// Starts a new generation, on a launch or a stop, and returns it.
    pub fn advance(&mut self) -> (g: u64)
        ensures
            final(self).generation == next_generation(old(self).generation),
            g == final(self).generation,
    {
        self.generation = self.generation.wrapping_add(1);
        self.generation
    }
}

/// A stale generation cannot update the service state: once a new
/// generation has begun, the one before it is no longer current.
pub proof fn lemma_advanced_generation_is_not_stale(g: u64)
    ensures
        next_generation(g) != g,
{
}

/// What a request to start the service does in each service phase.
#[derive(Clone, Copy, Debug, PartialEq, Eq, Structural)]
pub enum StartAction {
    /// The service is ready: open the browser if that was asked for.
    AlreadyReady,
    /// The service is starting or stopping: show the main window.
    ShowProgress,
    /// The service is not running: resolve the runtime and launch it.
    Launch,
}

/// What a start request does in `phase`.
pub open spec fn start_action_for(phase: ServicePhase) -> StartAction {
    match phase {
        ServicePhase::Ready => StartAction::AlreadyReady,
        ServicePhase::Starting | ServicePhase::Stopping => StartAction::ShowProgress,
        ServicePhase::Stopped | ServicePhase::Failed => StartAction::Launch,
    }
}

/// What a start request does in `phase`.
pub fn start_action(phase: ServicePhase) -> (r: StartAction)
    ensures
        r == start_action_for(phase),
{
    match phase {
        ServicePhase::Ready => StartAction::AlreadyReady,
        ServicePhase::Starting | ServicePhase::Stopping => StartAction::ShowProgress,
        ServicePhase::Stopped | ServicePhase::Failed => StartAction::Launch,
    }
}

/// A candidate runtime may only be started for testing while no service
/// runs.
pub fn candidate_start_check(phase: ServicePhase) -> (r: Result<(), String>)
    ensures
        r is Ok <==> (phase == ServicePhase::Stopped || phase == ServicePhase::Failed),
        r matches Err(e) ==> e@ == "A Harness service is already running."@,
{
    match phase {
        ServicePhase::Stopped | ServicePhase::Failed => Ok(()),
        _ => Err(owned("A Harness service is already running.")),
    }
}

/// How waiting for the service to become ready ended.
#[derive(Clone, Copy, Debug, PartialEq, Eq, Structural)]
pub enum ReadyResult {
    Ready,
    Stopped,
    Exited,
    TimedOut,
}

/// The arguments with which the private Node.js runs the `dsh` script as
/// the Harness web service on its fixed local address.
pub open spec fn service_argument_texts(dsh: Seq<char>) -> Seq<Seq<char>> {
    seq![dsh, "web"@, "--host"@, "127.0.0.1"@, "--port"@, "3080"@]
}

/// The arguments that start the Harness web service.
pub fn service_arguments(dsh: &str) -> (r: Vec<String>)
    ensures
        texts(r@) == service_argument_texts(dsh@),
{
    let mut r: Vec<String> = Vec::new();
    r.push(owned(dsh));
    r.push(owned("web"));
    r.push(owned("--host"));
    r.push(owned("127.0.0.1"));
    r.push(owned("--port"));
    r.push(owned("3080"));
    assert(texts(r@) =~= service_argument_texts(dsh@));
    r
}

/// How one look at a starting service ends: a process that exited is not
/// ready; a service that printed its start marker and answered its address
/// is ready; past the deadline the start timed out; otherwise the wait goes
/// on.
pub open spec fn readiness(exited: bool, answered: bool, deadline_passed: bool) -> Option<ReadyResult> {
    if exited {
        Some(ReadyResult::Exited)
    } else if answered {
        Some(ReadyResult::Ready)
    } else if deadline_passed {
        Some(ReadyResult::TimedOut)
    } else {
        None
    }
}

/// Whether a look at a starting service asks its address: only a running
/// process that printed the start marker is asked.
pub fn should_ask_service(exited: bool, marker_seen: bool) -> (r: bool)
    ensures
        r == (!exited && marker_seen),
{
    !exited && marker_seen
}

/// How one look at a starting service ends.
pub fn readiness_check(exited: bool, answered: bool, deadline_passed: bool) -> (r: Option<ReadyResult>)
    ensures
        r == readiness(exited, answered, deadline_passed),
{
    if exited {
        Some(ReadyResult::Exited)
    } else if answered {
        Some(ReadyResult::Ready)
    } else if deadline_passed {
        Some(ReadyResult::TimedOut)
    } else {
        None
    }
}

/// Where the supervision of the service stands.
#[derive(Clone, Copy, Debug, PartialEq, Eq, Structural)]
pub enum SupervisorPhase {
    /// An attempt is about to begin.
    Beginning,
    /// The process of the attempt is being launched and awaited.
    Launching,
    /// The service is ready and serving.
    Serving,
    /// The pause before the second attempt.
    Pausing,
    /// Supervision has ended.
    Done,
}

/// What happened since the supervisor's last step.
#[derive(Clone, Copy, Debug, PartialEq, Eq, Structural)]
pub enum SupervisorEvent {
    /// An attempt begins; whether a stop was requested and whether the
    /// service port is free.
    AttemptBegins { stop_requested: bool, port_available: bool },
    /// The process could not be created or contained.
    LaunchFailed,
    /// Waiting for readiness ended.
    Waited(ReadyResult),
    /// The ready service exited by itself.
    ServiceExited,
    /// A stop was requested while the service was ready.
    StopRequested,
    /// The pause before the second attempt ended, cut short by a stop or
    /// not.
    PauseEnded { stop_requested: bool },
}

/// The failures that end supervision.
#[derive(Clone, Copy, Debug, PartialEq, Eq, Structural)]
pub enum StartFailure {
    /// The port was taken before the second attempt.
    PortTaken,
    /// The second attempt timed out.
    TimedOut,
    /// Both attempts ended without a service.
    Exhausted,
}

/// What the supervisor does next.
#[derive(Clone, Copy, Debug, PartialEq, Eq, Structural)]
pub enum SupervisorAction {
    /// Report the cancelled start to a waiting caller and end.
    Cancel,
    /// Stop the service and end, with nothing to report.
    End,
    /// Report the failure, set the service failed, show the main window and
    /// end.
    Fail(StartFailure),
    /// Launch the service process; for a second attempt, first show the
    /// service as starting again.
    Launch { announce_starting: bool },
    /// The service is ready: report it, open the browser or hide the main
    /// window as asked, and keep serving.
    Serve,
    /// Wait two seconds before the second attempt.
    Pause,
    /// Begin the second attempt at once.
    NextAttempt,
}

/// The supervision of the service's start attempts: at most two attempts,
/// the second after a pause when the first one ran.
#[derive(Clone, Copy, Debug, PartialEq, Eq, Structural)]
pub struct Supervisor {
    pub attempt: u8,
    pub phase: SupervisorPhase,
}

/// The supervisor before its first attempt.
pub open spec fn initial_supervisor() -> Supervisor {
    Supervisor { attempt: 0, phase: SupervisorPhase::Beginning }
}

/// A supervisor state that can occur.
pub open spec fn supervisor_valid(s: Supervisor) -> bool {
    &&& s.attempt <= 1
    &&& s.phase == SupervisorPhase::Pausing ==> s.attempt == 0
}

/// Which events can happen in each phase.
pub open spec fn event_expected(s: Supervisor, e: SupervisorEvent) -> bool {
    match s.phase {
        SupervisorPhase::Beginning => e is AttemptBegins,
        SupervisorPhase::Launching => e is LaunchFailed || e is Waited,
        SupervisorPhase::Serving => e is ServiceExited || e is StopRequested,
        SupervisorPhase::Pausing => e is PauseEnded,
        SupervisorPhase::Done => false,
    }
}

/// After an attempt ended without a service: a pause before the second
/// attempt, or, after the second, failure.
pub open spec fn attempt_over(s: Supervisor, pause: bool) -> (Supervisor, SupervisorAction) {
    if s.attempt == 0 {
        if pause {
            (Supervisor { phase: SupervisorPhase::Pausing, ..s }, SupervisorAction::Pause)
        } else {
            (Supervisor { attempt: 1, phase: SupervisorPhase::Beginning }, SupervisorAction::NextAttempt)
        }
    } else {
        (Supervisor { phase: SupervisorPhase::Done, ..s }, SupervisorAction::Fail(StartFailure::Exhausted))
    }
}

/// One step of the supervision: a stop before an attempt cancels; the second
/// attempt needs the port still free; a process that could not be launched
/// goes straight to the next attempt; a timeout of the second attempt fails;
/// a ready service is served until it exits, which counts as a finished
/// attempt, or is stopped.
pub open spec fn supervise(s: Supervisor, e: SupervisorEvent) -> (Supervisor, SupervisorAction) {
    let done = Supervisor { phase: SupervisorPhase::Done, ..s };
    match e {
        SupervisorEvent::AttemptBegins { stop_requested, port_available } => if stop_requested {
            (done, SupervisorAction::Cancel)
        } else if s.attempt > 0 && !port_available {
            (done, SupervisorAction::Fail(StartFailure::PortTaken))
        } else {
            (
                Supervisor { phase: SupervisorPhase::Launching, ..s },
                SupervisorAction::Launch { announce_starting: s.attempt > 0 },
            )
        },
        SupervisorEvent::LaunchFailed => attempt_over(s, false),
        SupervisorEvent::Waited(result) => match result {
            ReadyResult::Stopped => (done, SupervisorAction::Cancel),
            ReadyResult::Exited => attempt_over(s, true),
            ReadyResult::TimedOut => if s.attempt == 1 {
                (done, SupervisorAction::Fail(StartFailure::TimedOut))
            } else {
                attempt_over(s, true)
            },
            ReadyResult::Ready => (
                Supervisor { phase: SupervisorPhase::Serving, ..s },
                SupervisorAction::Serve,
            ),
        },
        SupervisorEvent::ServiceExited => attempt_over(s, true),
        SupervisorEvent::StopRequested => (done, SupervisorAction::End),
        SupervisorEvent::PauseEnded { stop_requested } => if stop_requested {
            (done, SupervisorAction::End)
        } else {
            (Supervisor { attempt: 1, phase: SupervisorPhase::Beginning }, SupervisorAction::NextAttempt)
        },
    }
}

impl Supervisor {
    /// The supervisor before its first attempt.
    pub fn new() -> (s: Supervisor)
        ensures
            s == initial_supervisor(),
    {
        Supervisor { attempt: 0, phase: SupervisorPhase::Beginning }
    }

    fn over(&mut self, pause: bool) -> (a: SupervisorAction)
        requires
            supervisor_valid(*old(self)),
        ensures
            (*final(self), a) == attempt_over(*old(self), pause),
    {
        if self.attempt == 0 {
            if pause {
                self.phase = SupervisorPhase::Pausing;
                SupervisorAction::Pause
            } else {
                self.attempt = 1;
                self.phase = SupervisorPhase::Beginning;
                SupervisorAction::NextAttempt
            }
        } else {
            self.phase = SupervisorPhase::Done;
            SupervisorAction::Fail(StartFailure::Exhausted)
        }
    }

    /// Takes one step on `event`.
    pub fn step(&mut self, event: SupervisorEvent) -> (a: SupervisorAction)
        requires
            supervisor_valid(*old(self)),
            event_expected(*old(self), event),
        ensures
            (*final(self), a) == supervise(*old(self), event),
            supervisor_valid(*final(self)),
    {
        match event {
            SupervisorEvent::AttemptBegins { stop_requested, port_available } => {
                if stop_requested {
                    self.phase = SupervisorPhase::Done;
                    SupervisorAction::Cancel
                } else if self.attempt > 0 && !port_available {
                    self.phase = SupervisorPhase::Done;
                    SupervisorAction::Fail(StartFailure::PortTaken)
                } else {
                    self.phase = SupervisorPhase::Launching;
                    SupervisorAction::Launch { announce_starting: self.attempt > 0 }
                }
            },
            SupervisorEvent::LaunchFailed => self.over(false),
            SupervisorEvent::Waited(result) => match result {
                ReadyResult::Stopped => {
                    self.phase = SupervisorPhase::Done;
                    SupervisorAction::Cancel
                },
                ReadyResult::Exited => self.over(true),
                ReadyResult::TimedOut => {
                    if self.attempt == 1 {
                        self.phase = SupervisorPhase::Done;
                        SupervisorAction::Fail(StartFailure::TimedOut)
                    } else {
                        self.over(true)
                    }
                },
                ReadyResult::Ready => {
                    self.phase = SupervisorPhase::Serving;
                    SupervisorAction::Serve
                },
            },
            SupervisorEvent::ServiceExited => self.over(true),
            SupervisorEvent::StopRequested => {
                self.phase = SupervisorPhase::Done;
                SupervisorAction::End
            },
            SupervisorEvent::PauseEnded { stop_requested } => {
                if stop_requested {
                    self.phase = SupervisorPhase::Done;
                    SupervisorAction::End
                } else {
                    self.attempt = 1;
                    self.phase = SupervisorPhase::Beginning;
                    SupervisorAction::NextAttempt
                }
            },
        }
    }

    /// Whether supervision has ended.
    pub fn is_done(&self) -> (r: bool)
        ensures
            r == (self.phase == SupervisorPhase::Done),
    {
        self.phase == SupervisorPhase::Done
    }
}

/// The error that a failure reports to a waiting caller, and the message
/// key it shows.
pub open spec fn failure_texts(f: StartFailure) -> (Seq<char>, Seq<char>) {
    match f {
        StartFailure::PortTaken => (
            "Port 3080 became occupied before Harness could restart."@,
            "portInUse"@,
        ),
        StartFailure::TimedOut => ("Harness startup timed out."@, "startupTimedOut"@),
        StartFailure::Exhausted => (
            "Harness did not become ready after two attempts."@,
            "failed"@,
        ),
    }
}

/// The error and message key of a failure.
pub fn failure_message(f: StartFailure) -> (r: (String, String))
    ensures
        (r.0@, r.1@) == failure_texts(f),
{
    match f {
        StartFailure::PortTaken => (
            owned("Port 3080 became occupied before Harness could restart."),
            owned("portInUse"),
        ),
        StartFailure::TimedOut => (owned("Harness startup timed out."), owned("startupTimedOut")),
        StartFailure::Exhausted => (
            owned("Harness did not become ready after two attempts."),
            owned("failed"),
        ),
    }
}

/// The service is launched at most twice: a launch of a second attempt is
/// never followed by another attempt, and every step keeps the attempt
/// count within two.
pub proof fn lemma_at_most_two_attempts(s: Supervisor, e: SupervisorEvent)
    requires
        supervisor_valid(s),
        event_expected(s, e),
    ensures
        supervisor_valid(supervise(s, e).0),
        supervise(s, e).0.attempt >= s.attempt,
        s.attempt == 1 ==> supervise(s, e).1 != SupervisorAction::NextAttempt,
        s.attempt == 1 ==> supervise(s, e).1 != SupervisorAction::Pause,
{
}

/// A stop requested before an attempt or during the pause always ends
/// supervision, cancelling a start that a caller waits for.
pub proof fn lemma_stop_ends_supervision(s: Supervisor, port_available: bool)
    ensures
        supervise(s, SupervisorEvent::AttemptBegins { stop_requested: true, port_available }) == (
            Supervisor { phase: SupervisorPhase::Done, ..s },
            SupervisorAction::Cancel,
        ),
        supervise(s, SupervisorEvent::PauseEnded { stop_requested: true }).0.phase
            == SupervisorPhase::Done,
        supervise(s, SupervisorEvent::StopRequested).0.phase == SupervisorPhase::Done,
{
}

/// A start fails only on its second attempt: the first attempt that ends
/// without a ready service, by a failed launch, an early exit, a timeout or
/// an exit after serving, is followed by a second attempt, after a pause
/// where a process ran; and a failure happens only when the attempt that
/// ends is the second.
pub proof fn lemma_failures_only_end_the_second_attempt(s: Supervisor, e: SupervisorEvent)
    requires
        supervisor_valid(s),
        event_expected(s, e),
    ensures
        supervise(s, e).1 is Fail ==> s.attempt == 1,
        s.attempt == 0 && (e == SupervisorEvent::Waited(ReadyResult::TimedOut) || e
            == SupervisorEvent::Waited(ReadyResult::Exited) || e == SupervisorEvent::ServiceExited)
            ==> supervise(s, e) == (
            Supervisor { attempt: 0, phase: SupervisorPhase::Pausing },
            SupervisorAction::Pause,
        ),
        s.attempt == 0 && e == SupervisorEvent::LaunchFailed ==> supervise(s, e) == (
            Supervisor { attempt: 1, phase: SupervisorPhase::Beginning },
            SupervisorAction::NextAttempt,
        ),
        s.phase == SupervisorPhase::Pausing && e == (SupervisorEvent::PauseEnded {
            stop_requested: false,
        }) ==> supervise(s, e) == (
            Supervisor { attempt: 1, phase: SupervisorPhase::Beginning },
            SupervisorAction::NextAttempt,
        ),
{
}

} // verus!
