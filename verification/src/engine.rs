//! The service lifecycle: one step of supervision at a time.
//!
//! The engine decides and its caller acts. Each step takes what came of the
//! action that the engine asked for last, together with whether the host has
//! asked the service to stop, and gives the next action and the status to
//! report before it.

use crate::config::ServiceConfig;
use crate::policy::{decide, decision, Decision, PolicyModel};
use vstd::prelude::*;

verus! {

/// Milliseconds between two looks at the command.
pub const POLL_INTERVAL_MS: u64 = 50;

/// Milliseconds by which a wait hint exceeds the wait that the engine expects.
pub const WAIT_HINT_MARGIN_MS: u64 = 1000;

/// The exit code of a service whose command could not be started.
pub const SPAWN_FAILED_CODE: i32 = 1067;

/// The exit code of a service whose command had to be killed.
pub const FORCED_KILL_CODE: i32 = 1053;

/// The exit code of a service whose command could not be killed.
pub const KILL_FAILED_CODE: i32 = 1051;

/// The exit code of a service that could no longer report to the host.
pub const REPORT_FAILED_CODE: i32 = 1062;

/// The state of the service as the host sees it.
#[derive(Clone, Copy, Debug, PartialEq, Eq, Structural)]
pub enum ServiceState {
    Initializing,
    Running,
    StoppingGraceful,
    StoppingForced,
    Stopped,
    Failed,
}

impl ServiceState {
    /// True for the states in which the host waits for the service to get
    /// somewhere, and expects to hear of its progress.
    pub open spec fn is_pending(self) -> bool {
        self is Initializing || self is StoppingGraceful || self is StoppingForced
    }

    /// True for the states that the service never leaves.
    pub open spec fn is_terminal(self) -> bool {
        self is Stopped || self is Failed
    }

    /// The place of the state in the order in which states are passed through.
    pub open spec fn rank(self) -> nat {
        match self {
            ServiceState::Initializing => 0,
            ServiceState::Running => 1,
            ServiceState::StoppingGraceful => 2,
            ServiceState::StoppingForced => 3,
            ServiceState::Stopped => 4,
            ServiceState::Failed => 4,
        }
    }
}

/// An instruction from the host's service manager.
#[derive(Clone, Copy, Debug, PartialEq, Eq, Structural)]
pub enum ControlCode {
    Stop,
    Shutdown,
    Interrogate,
    PauseContinue,
    Other,
}

/// The stop flag after a control code has arrived: `Stop` and `Shutdown` raise
/// it, every other code is acknowledged and changes nothing. Once raised, the
/// flag stays raised.
pub fn on_control(code: ControlCode, stop_requested: bool) -> (raised: bool)
    ensures
        raised == (stop_requested || code is Stop || code is Shutdown),
{
    match code {
        ControlCode::Stop => true,
        ControlCode::Shutdown => true,
        ControlCode::Interrogate => stop_requested,
        ControlCode::PauseContinue => stop_requested,
        ControlCode::Other => stop_requested,
    }
}

/// How the life of one command ended.
#[derive(Clone, Copy, Debug, PartialEq, Eq, Structural)]
pub enum ExitReason {
    Normal,
    Killed,
    SpawnFailed,
}

/// The end of one command's life.
#[derive(Clone, Copy, Debug, PartialEq, Eq, Structural)]
pub struct ExitRecord {
    pub exit_code: i32,
    pub reason: ExitReason,
}

/// How a stop came out.
#[derive(Clone, Copy, Debug, PartialEq, Eq, Structural)]
pub enum StopOutcome {
    /// The command exited within the time it was given.
    GracefulExit(i32),
    /// The command was killed at the deadline.
    ForcedKill,
}

impl StopOutcome {
    /// The exit code that the service reports after the stop.
    pub open spec fn code(self) -> i32 {
        match self {
            StopOutcome::GracefulExit(code) => code,
            StopOutcome::ForcedKill => FORCED_KILL_CODE,
        }
    }

    /// The exit code that the service reports after the stop: the command's
    /// own where it exited in time, the code for a forced kill otherwise.
    pub fn exit_code(self) -> (code: i32)
        ensures
            code == self.code(),
    {
        match self {
            StopOutcome::GracefulExit(code) => code,
            StopOutcome::ForcedKill => FORCED_KILL_CODE,
        }
    }
}

/// What the host is told.
#[derive(Clone, Copy, Debug, PartialEq, Eq, Structural)]
pub struct StatusReport {
    pub state: ServiceState,
    /// Counts the reports of progress.
    pub checkpoint: u64,
    /// Milliseconds within which the host will hear from the service again.
    pub wait_hint_ms: u64,
}

/// What the engine asks its caller to do next.
#[derive(Clone, Copy, Debug, PartialEq, Eq, Structural)]
pub enum Action {
    /// Start the command.
    Spawn,
    /// Wait this long for the command to exit, and say whether it did.
    Poll { wait_ms: u64 },
    /// Ask the command and all its descendants to stop.
    SignalStop,
    /// Kill the command and all its descendants.
    Kill,
    /// Leave, with this exit code.
    Exit { code: i32 },
}

impl Action {
    /// True for the actions that are asked for while a command is alive.
    pub open spec fn needs_child(self) -> bool {
        self is Poll || self is SignalStop || self is Kill
    }
}

/// What came of an action.
#[derive(Clone, Copy, Debug, PartialEq, Eq, Structural)]
pub enum Event {
    /// The command was started.
    SpawnSucceeded,
    /// The command could not be started.
    SpawnFailed,
    /// The wait is over and the command is still running.
    ChildRunning,
    /// The command has exited, with this code.
    ChildExited(i32),
    /// The command was asked to stop.
    Signalled,
    /// The command could not be asked to stop.
    SignalFailed,
    /// The command was killed, or was gone already.
    Killed,
    /// The command could not be killed.
    KillFailed,
    /// The host did not take the status report, and the action was not tried.
    ReportFailed,
}

impl Event {
    /// True when the event tells what came of `action`.
    pub open spec fn answers(self, action: Action) -> bool {
        match action {
            Action::Spawn => self is SpawnSucceeded || self is SpawnFailed,
            Action::Poll { .. } => self is ChildRunning || self is ChildExited,
            Action::SignalStop => self is Signalled || self is SignalFailed,
            Action::Kill => self is Killed || self is KillFailed,
            Action::Exit { .. } => false,
        }
    }
}

/// What a step gives back.
#[derive(Clone, Copy, Debug, PartialEq, Eq, Structural)]
pub struct Step {
    /// The status to report to the host before anything else is done.
    pub report: Option<StatusReport>,
    /// The end of a command's life, where the step has seen one.
    pub record: Option<ExitRecord>,
    /// How the stop came out, where the step has seen the end of one.
    pub outcome: Option<StopOutcome>,
    /// What to do next.
    pub action: Action,
}

/// Where the supervision of a service stands.
#[derive(Clone, Copy, Debug, PartialEq, Eq, Structural)]
pub struct Supervision {
    pub state: ServiceState,
    /// The action that was asked for last.
    pub pending: Action,
    /// The checkpoint of the last report of progress.
    pub checkpoint: u64,
    /// Milliseconds waited so far for the command to stop.
    pub waited_ms: u64,
    /// The exit code of the command that exited last; zero before any has.
    pub last_exit: i32,
    /// The exit code of a fault that ends the service once the command is gone.
    pub fault: Option<i32>,
}

/// The wait before the next look at a command that was asked to stop: the poll
/// interval, or what is left of the time it was given where that is less.
pub open spec fn poll_wait(timeout: u64, waited: u64) -> u64
    recommends
        waited <= timeout,
{
    if timeout - waited < POLL_INTERVAL_MS {
        (timeout - waited) as u64
    } else {
        POLL_INTERVAL_MS
    }
}

/// The wait hint of a report: the wait that the engine expects, and a margin;
/// the largest number where the sum does not fit.
pub open spec fn wait_hint(expected: u64) -> u64 {
    if expected <= u64::MAX - WAIT_HINT_MARGIN_MS {
        (expected + WAIT_HINT_MARGIN_MS) as u64
    } else {
        u64::MAX
    }
}

impl Supervision {
    /// What holds of the supervision of a service whose command is given
    /// `timeout` milliseconds to stop.
    pub open spec fn wf(self, timeout: u64) -> bool {
        &&& match self.state {
            ServiceState::Initializing => self.pending is Spawn && self.checkpoint == 1
                && self.waited_ms == 0,
            ServiceState::Running => (self.pending is Spawn || self.pending == (Action::Poll {
                wait_ms: POLL_INTERVAL_MS,
            })) && self.checkpoint == 1 && self.waited_ms == 0,
            ServiceState::StoppingGraceful => match self.pending {
                Action::SignalStop => self.checkpoint <= 2 && self.waited_ms == 0,
                Action::Poll { wait_ms } => self.waited_ms <= timeout && wait_ms == poll_wait(
                    timeout,
                    self.waited_ms,
                ) && self.checkpoint <= 3 + self.waited_ms / POLL_INTERVAL_MS,
                _ => false,
            },
            ServiceState::StoppingForced => self.pending is Kill,
            ServiceState::Stopped => self.pending is Exit,
            ServiceState::Failed => self.pending is Exit,
        }
        &&& self.checkpoint <= 4 + self.waited_ms / POLL_INTERVAL_MS
        &&& self.waited_ms <= timeout
        &&& self.fault matches Some(code) ==> code == REPORT_FAILED_CODE && (self.state
            is StoppingForced || self.state is Failed)
    }

    /// True while the engine takes a command to be alive.
    pub open spec fn has_child(self) -> bool {
        self.pending.needs_child()
    }

    /// Nothing changes: the action that was asked for is asked for again.
    pub open spec fn stay(self) -> (Supervision, Step) {
        (self, Step { report: None, record: None, outcome: None, action: self.pending })
    }

    /// The service ends in `state` with exit code `code`.
    pub open spec fn finish(self, state: ServiceState, code: i32, record: Option<ExitRecord>) -> (
        Supervision,
        Step,
    ) {
        let action = Action::Exit { code };
        (
            Supervision { state, pending: action, ..self },
            Step {
                report: Some(StatusReport { state, checkpoint: self.checkpoint, wait_hint_ms: 0 }),
                record,
                outcome: None,
                action,
            },
        )
    }

    /// The service ends after a stop that came out as `outcome`: as stopped,
    /// with the exit code that the outcome gives; or, where a fault was met
    /// before, as failed with the fault's code.
    pub open spec fn finish_stop(self, outcome: StopOutcome, record: ExitRecord) -> (
        Supervision,
        Step,
    ) {
        let (ended, step) = match self.fault {
            Some(code) => self.finish(ServiceState::Failed, code, Some(record)),
            None => self.finish(ServiceState::Stopped, outcome.code(), Some(record)),
        };
        (ended, Step { outcome: Some(outcome), ..step })
    }

    /// The service goes on to `state`, which is pending, and asks for `action`.
    pub open spec fn progress(
        self,
        state: ServiceState,
        action: Action,
        waited_ms: u64,
        expected_ms: u64,
        record: Option<ExitRecord>,
    ) -> (Supervision, Step) {
        let checkpoint = (self.checkpoint + 1) as u64;
        (
            Supervision { state, pending: action, checkpoint, waited_ms, ..self },
            Step {
                report: Some(
                    StatusReport { state, checkpoint, wait_hint_ms: wait_hint(expected_ms) },
                ),
                record,
                outcome: None,
                action,
            },
        )
    }

    /// The command is asked to stop.
    pub open spec fn begin_stop(self, timeout: u64) -> (Supervision, Step) {
        self.progress(ServiceState::StoppingGraceful, Action::SignalStop, 0, timeout, None)
    }

    /// The command is killed.
    pub open spec fn escalate(self) -> (Supervision, Step) {
        self.progress(ServiceState::StoppingForced, Action::Kill, self.waited_ms, 0, None)
    }

    /// The command was started.
    pub open spec fn started(self, timeout: u64, stop: bool) -> (Supervision, Step) {
        if stop {
            self.begin_stop(timeout)
        } else {
            let action = Action::Poll { wait_ms: POLL_INTERVAL_MS };
            let next = Supervision { state: ServiceState::Running, pending: action, ..self };
            let report = if self.state is Initializing {
                Some(
                    StatusReport {
                        state: ServiceState::Running,
                        checkpoint: self.checkpoint,
                        wait_hint_ms: 0,
                    },
                )
            } else {
                None
            };
            (next, Step { report, record: None, outcome: None, action })
        }
    }

    /// A wait is over and the command is still running.
    pub open spec fn still_running(self, timeout: u64, stop: bool) -> (Supervision, Step) {
        if self.state is StoppingGraceful {
            let wait_ms = match self.pending {
                Action::Poll { wait_ms } => wait_ms,
                _ => 0,
            };
            let waited = (self.waited_ms + wait_ms) as u64;
            if waited >= timeout {
                Supervision { waited_ms: waited, ..self }.escalate()
            } else {
                self.progress(
                    ServiceState::StoppingGraceful,
                    Action::Poll { wait_ms: poll_wait(timeout, waited) },
                    waited,
                    (timeout - waited) as u64,
                    None,
                )
            }
        } else if stop {
            self.begin_stop(timeout)
        } else {
            self.stay()
        }
    }

    /// The command has exited with `code`, and `decision` is what the restart
    /// policy makes of it.
    pub open spec fn exited(self, code: i32, decision: Decision, stop: bool) -> (
        Supervision,
        Step,
    ) {
        let record = Some(ExitRecord { exit_code: code, reason: ExitReason::Normal });
        let seen = Supervision { last_exit: code, ..self };
        if self.state is StoppingGraceful {
            seen.finish_stop(StopOutcome::GracefulExit(code), record->0)
        } else {
            match decision {
                Decision::StopSuccess => seen.finish(ServiceState::Stopped, 0, record),
                Decision::Stop => seen.finish(ServiceState::Stopped, code, record),
                Decision::Restart => if stop {
                    seen.finish(ServiceState::Stopped, code, record)
                } else {
                    (
                        Supervision { pending: Action::Spawn, ..seen },
                        Step { report: None, record, outcome: None, action: Action::Spawn },
                    )
                },
            }
        }
    }

    /// The command is gone after a kill.
    pub open spec fn killed(self) -> (Supervision, Step) {
        self.finish_stop(
            StopOutcome::ForcedKill,
            ExitRecord { exit_code: FORCED_KILL_CODE, reason: ExitReason::Killed },
        )
    }

    /// The host did not take a report. With no command alive the service
    /// fails at once; otherwise the command is killed first.
    pub open spec fn report_failed(self) -> (Supervision, Step) {
        if self.has_child() {
            let next = Supervision {
                state: ServiceState::StoppingForced,
                pending: Action::Kill,
                fault: Some(REPORT_FAILED_CODE),
                ..self
            };
            (next, Step { report: None, record: None, outcome: None, action: Action::Kill })
        } else {
            Supervision { fault: Some(REPORT_FAILED_CODE), ..self }.finish(
                ServiceState::Failed,
                REPORT_FAILED_CODE,
                None,
            )
        }
    }
}

/// The first step of a service. Where a stop was asked for already, no command
/// is started and the service ends at once; otherwise it asks for the command
/// to be started.
pub open spec fn first(stop: bool) -> (Supervision, Step) {
    let blank = Supervision {
        state: ServiceState::Initializing,
        pending: Action::Spawn,
        checkpoint: 0,
        waited_ms: 0,
        last_exit: 0,
        fault: None,
    };
    if stop {
        blank.finish(ServiceState::Stopped, 0, None)
    } else {
        blank.progress(ServiceState::Initializing, Action::Spawn, 0, 0, None)
    }
}

/// One step of supervision: where the service stands after `event`, and what
/// is to be done next. A service that has ended stays as it is. A failed report
/// is always heeded. Any other event counts only where it tells what came of
/// the action that was asked for last.
pub open spec fn next(
    timeout: u64,
    policy: PolicyModel,
    pass_codes: Set<i32>,
    s: Supervision,
    event: Event,
    stop: bool,
) -> (Supervision, Step) {
    if s.state.is_terminal() {
        s.stay()
    } else if event is ReportFailed {
        s.report_failed()
    } else if !event.answers(s.pending) {
        s.stay()
    } else {
        match event {
            Event::SpawnSucceeded => s.started(timeout, stop),
            Event::SpawnFailed => s.finish(
                ServiceState::Failed,
                SPAWN_FAILED_CODE,
                Some(ExitRecord { exit_code: SPAWN_FAILED_CODE, reason: ExitReason::SpawnFailed }),
            ),
            Event::ChildRunning => s.still_running(timeout, stop),
            Event::ChildExited(code) => s.exited(code, decision(code, policy, pass_codes), stop),
            Event::Signalled => s.progress(
                ServiceState::StoppingGraceful,
                Action::Poll { wait_ms: poll_wait(timeout, 0) },
                0,
                timeout,
                None,
            ),
            Event::SignalFailed => s.escalate(),
            Event::Killed => s.killed(),
            Event::KillFailed => s.finish(ServiceState::Failed, KILL_FAILED_CODE, None),
            Event::ReportFailed => s.stay(),
        }
    }
}

/// Computes `poll_wait`.
fn next_wait(timeout: u64, waited: u64) -> (wait_ms: u64)
    requires
        waited <= timeout,
    ensures
        wait_ms == poll_wait(timeout, waited),
{
    if timeout - waited < POLL_INTERVAL_MS {
        timeout - waited
    } else {
        POLL_INTERVAL_MS
    }
}

/// Computes `Supervision::finish`.
fn finished(s: Supervision, state: ServiceState, code: i32, record: Option<ExitRecord>) -> (r: (
    Supervision,
    Step,
))
    ensures
        r == s.finish(state, code, record),
{
    let action = Action::Exit { code };
    (
        Supervision {
            state,
            pending: action,
            checkpoint: s.checkpoint,
            waited_ms: s.waited_ms,
            last_exit: s.last_exit,
            fault: s.fault,
        },
        Step {
            report: Some(StatusReport { state, checkpoint: s.checkpoint, wait_hint_ms: 0 }),
            record,
            outcome: None,
            action,
        },
    )
}

/// Computes `Supervision::finish_stop`.
fn finished_stop(s: Supervision, outcome: StopOutcome, record: ExitRecord) -> (r: (
    Supervision,
    Step,
))
    ensures
        r == s.finish_stop(outcome, record),
{
    let (ended, step) = match s.fault {
        Some(code) => finished(s, ServiceState::Failed, code, Some(record)),
        None => finished(s, ServiceState::Stopped, outcome.exit_code(), Some(record)),
    };
    (
        ended,
        Step {
            report: step.report,
            record: step.record,
            outcome: Some(outcome),
            action: step.action,
        },
    )
}

/// Computes `Supervision::progress`.
fn progressed(
    s: Supervision,
    state: ServiceState,
    action: Action,
    waited_ms: u64,
    expected_ms: u64,
    record: Option<ExitRecord>,
) -> (r: (Supervision, Step))
    requires
        s.checkpoint < u64::MAX,
    ensures
        r == s.progress(state, action, waited_ms, expected_ms, record),
{
    let checkpoint = s.checkpoint + 1;
    let wait_hint_ms = if expected_ms <= u64::MAX - WAIT_HINT_MARGIN_MS {
        expected_ms + WAIT_HINT_MARGIN_MS
    } else {
        u64::MAX
    };
    (
        Supervision {
            state,
            pending: action,
            checkpoint,
            waited_ms,
            last_exit: s.last_exit,
            fault: s.fault,
        },
        Step {
            report: Some(StatusReport { state, checkpoint, wait_hint_ms }),
            record,
            outcome: None,
            action,
        },
    )
}

/// Begins the supervision of a service. `stop_requested` says whether the host
/// has asked the service to stop already.
pub fn start(config: &ServiceConfig, stop_requested: bool) -> (r: (Supervision, Step))
    ensures
        r == first(stop_requested),
        r.0.wf(config.stop_timeout_ms),
{
    let blank = Supervision {
        state: ServiceState::Initializing,
        pending: Action::Spawn,
        checkpoint: 0,
        waited_ms: 0,
        last_exit: 0,
        fault: None,
    };
    if stop_requested {
        finished(blank, ServiceState::Stopped, 0, None)
    } else {
        progressed(blank, ServiceState::Initializing, Action::Spawn, 0, 0, None)
    }
}

/// Takes one step of supervision: `event` is what came of the action that was
/// asked for last, and `stop_requested` says whether the host has asked the
/// service to stop.
pub fn step(config: &ServiceConfig, s: Supervision, event: Event, stop_requested: bool) -> (r: (
    Supervision,
    Step,
))
    requires
        s.wf(config.stop_timeout_ms),
    ensures
        r == next(
            config.stop_timeout_ms,
            config.policy@,
            config.pass_codes@.to_set(),
            s,
            event,
            stop_requested,
        ),
        r.0.wf(config.stop_timeout_ms),
{
    let timeout = config.stop_timeout_ms;
    let stay = (s, Step { report: None, record: None, outcome: None, action: s.pending });
    if matches!(s.state, ServiceState::Stopped | ServiceState::Failed) {
        return stay;
    }
    match (event, s.pending) {
        (Event::ReportFailed, Action::Spawn) => {
            let marked = Supervision {
                state: s.state,
                pending: s.pending,
                checkpoint: s.checkpoint,
                waited_ms: s.waited_ms,
                last_exit: s.last_exit,
                fault: Some(REPORT_FAILED_CODE),
            };
            finished(marked, ServiceState::Failed, REPORT_FAILED_CODE, None)
        },
        (Event::ReportFailed, _) => {
            let next = Supervision {
                state: ServiceState::StoppingForced,
                pending: Action::Kill,
                checkpoint: s.checkpoint,
                waited_ms: s.waited_ms,
                last_exit: s.last_exit,
                fault: Some(REPORT_FAILED_CODE),
            };
            (next, Step { report: None, record: None, outcome: None, action: Action::Kill })
        },
        (Event::SpawnSucceeded, Action::Spawn) => {
            if stop_requested {
                progressed(s, ServiceState::StoppingGraceful, Action::SignalStop, 0, timeout, None)
            } else {
                let action = Action::Poll { wait_ms: POLL_INTERVAL_MS };
                let report = match s.state {
                    ServiceState::Initializing => Some(
                        StatusReport {
                            state: ServiceState::Running,
                            checkpoint: s.checkpoint,
                            wait_hint_ms: 0,
                        },
                    ),
                    _ => None,
                };
                let next = Supervision {
                    state: ServiceState::Running,
                    pending: action,
                    checkpoint: s.checkpoint,
                    waited_ms: s.waited_ms,
                    last_exit: s.last_exit,
                    fault: s.fault,
                };
                (next, Step { report, record: None, outcome: None, action })
            }
        },
        (Event::SpawnFailed, Action::Spawn) => {
            let record = ExitRecord { exit_code: SPAWN_FAILED_CODE, reason: ExitReason::SpawnFailed };
            finished(s, ServiceState::Failed, SPAWN_FAILED_CODE, Some(record))
        },
        (Event::ChildRunning, Action::Poll { wait_ms }) => {
            match s.state {
                ServiceState::StoppingGraceful => {
                    let waited = s.waited_ms + wait_ms;
                    if waited >= timeout {
                        let late = Supervision {
                            state: s.state,
                            pending: s.pending,
                            checkpoint: s.checkpoint,
                            waited_ms: waited,
                            last_exit: s.last_exit,
                            fault: s.fault,
                        };
                        progressed(
                            late,
                            ServiceState::StoppingForced,
                            Action::Kill,
                            waited,
                            0,
                            None,
                        )
                    } else {
                        progressed(
                            s,
                            ServiceState::StoppingGraceful,
                            Action::Poll { wait_ms: next_wait(timeout, waited) },
                            waited,
                            timeout - waited,
                            None,
                        )
                    }
                },
                _ => {
                    if stop_requested {
                        progressed(
                            s,
                            ServiceState::StoppingGraceful,
                            Action::SignalStop,
                            0,
                            timeout,
                            None,
                        )
                    } else {
                        stay
                    }
                },
            }
        },
        (Event::ChildExited(code), Action::Poll { .. }) => {
            let record = Some(ExitRecord { exit_code: code, reason: ExitReason::Normal });
            let seen = Supervision {
                state: s.state,
                pending: s.pending,
                checkpoint: s.checkpoint,
                waited_ms: s.waited_ms,
                last_exit: code,
                fault: s.fault,
            };
            match s.state {
                ServiceState::StoppingGraceful => finished_stop(
                    seen,
                    StopOutcome::GracefulExit(code),
                    ExitRecord { exit_code: code, reason: ExitReason::Normal },
                ),
                _ => match decide(code, &config.policy, &config.pass_codes) {
                    Decision::StopSuccess => finished(seen, ServiceState::Stopped, 0, record),
                    Decision::Stop => finished(seen, ServiceState::Stopped, code, record),
                    Decision::Restart => {
                        if stop_requested {
                            finished(seen, ServiceState::Stopped, code, record)
                        } else {
                            let next = Supervision {
                                state: s.state,
                                pending: Action::Spawn,
                                checkpoint: s.checkpoint,
                                waited_ms: s.waited_ms,
                                last_exit: code,
                                fault: s.fault,
                            };
                            (next, Step { report: None, record, outcome: None, action: Action::Spawn })
                        }
                    },
                },
            }
        },
        (Event::Signalled, Action::SignalStop) => progressed(
            s,
            ServiceState::StoppingGraceful,
            Action::Poll { wait_ms: next_wait(timeout, 0) },
            0,
            timeout,
            None,
        ),
        (Event::SignalFailed, Action::SignalStop) => progressed(
            s,
            ServiceState::StoppingForced,
            Action::Kill,
            s.waited_ms,
            0,
            None,
        ),
        (Event::Killed, Action::Kill) => finished_stop(
            s,
            StopOutcome::ForcedKill,
            ExitRecord { exit_code: FORCED_KILL_CODE, reason: ExitReason::Killed },
        ),
        (Event::KillFailed, Action::Kill) => finished(
            s,
            ServiceState::Failed,
            KILL_FAILED_CODE,
            None,
        ),
        _ => stay,
    }
}

} // verus!
