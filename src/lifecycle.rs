use vstd::prelude::*;

verus! {

/// The exit status of a run that used a capability that was not enabled.
pub const UNSTABLE_EXIT_CODE: i32 = 70;

/// The exit status of a run that ended on an error.
pub const ERROR_EXIT_CODE: i32 = 1;

/// Why a run ended before it completed.
#[derive(Clone, Copy, Debug, PartialEq, Eq, Structural)]
pub enum Fault {
    /// The isolate could not be constructed.
    StartupFailed,
    /// The main module could not be found.
    ModuleNotFound,
    /// The main module's identity uses an addressing scheme that is not supported.
    UnsupportedScheme,
    /// The script raised an error that nothing caught.
    UncaughtError,
    /// The script used a capability that was not enabled.
    UnstableFeature,
}

/// Where a run stands.
#[derive(Clone, Copy, Debug, PartialEq, Eq, Structural)]
pub enum Phase {
    Unbootstrapped,
    Bootstrapped,
    Executing,
    Draining,
    Completed,
    Faulted(Fault),
}

/// What happened in the isolate since the last step.
#[derive(Clone, Copy, Debug, PartialEq, Eq, Structural)]
pub enum Event {
    /// The isolate was constructed.
    IsolateReady,
    /// The isolate could not be constructed.
    IsolateFailed,
    /// The isolate began to execute the main module.
    ExecutionStarted,
    /// The main module could not be found.
    ModuleNotFound,
    /// The main module's identity uses an unsupported addressing scheme.
    UnsupportedScheme,
    /// The synchronous part of the main module finished.
    ExecutionReturned,
    /// The event loop has no work left.
    LoopIdle,
    /// The script recorded the exit code it wants once the run completes.
    ExitCodeSet(i32),
    /// The script asked to exit now with a code; pending work is abandoned.
    ExitRequested(i32),
    /// The script used a capability that was not enabled.
    UnstableFeatureUsed,
    /// The script raised an error that nothing caught.
    UncaughtError,
}

/// What the caller is to do next.
#[derive(Clone, Copy, Debug, PartialEq, Eq, Structural)]
pub enum Action {
    CreateIsolate,
    ExecuteMainModule,
    AwaitExecution,
    RunEventLoop,
    Exit(i32),
}

/// The decisions of a run, from construction of the isolate to its exit code.
#[derive(Clone, Copy, Debug, PartialEq, Eq, Structural)]
pub struct Driver {
    pub phase: Phase,
    /// The exit code recorded so far; zero until the script sets one.
    pub exit_code: i32,
}

/// The script is running: its own code or the event loop.
pub open spec fn is_running(p: Phase) -> bool {
    p == Phase::Executing || p == Phase::Draining
}

/// A run that has ended stays where it is.
pub open spec fn is_terminal(p: Phase) -> bool {
    p == Phase::Completed || p is Faulted
}

/// The exit status that a fault gives the process.
pub open spec fn fault_code(f: Fault) -> i32 {
    if f == Fault::UnstableFeature {
        UNSTABLE_EXIT_CODE
    } else {
        ERROR_EXIT_CODE
    }
}

/// The driver after an event.
pub open spec fn next_driver(d: Driver, e: Event) -> Driver {
    match (d.phase, e) {
        (Phase::Unbootstrapped, Event::IsolateReady) => Driver { phase: Phase::Bootstrapped, ..d },
        (Phase::Unbootstrapped, Event::IsolateFailed) => Driver {
            phase: Phase::Faulted(Fault::StartupFailed),
            ..d
        },
        (Phase::Bootstrapped, Event::ExecutionStarted) => Driver { phase: Phase::Executing, ..d },
        (Phase::Bootstrapped, Event::ModuleNotFound) => Driver {
            phase: Phase::Faulted(Fault::ModuleNotFound),
            ..d
        },
        (Phase::Bootstrapped, Event::UnsupportedScheme) => Driver {
            phase: Phase::Faulted(Fault::UnsupportedScheme),
            ..d
        },
        (Phase::Executing, Event::ExecutionReturned) => Driver { phase: Phase::Draining, ..d },
        (Phase::Draining, Event::LoopIdle) => Driver { phase: Phase::Completed, ..d },
        (p, Event::ExitCodeSet(n)) => if is_running(p) {
            Driver { exit_code: n, ..d }
        } else {
            d
        },
        (p, Event::ExitRequested(n)) => if is_running(p) {
            Driver { phase: Phase::Completed, exit_code: n }
        } else {
            d
        },
        (p, Event::UnstableFeatureUsed) => if is_running(p) {
            Driver { phase: Phase::Faulted(Fault::UnstableFeature), ..d }
        } else {
            d
        },
        (p, Event::UncaughtError) => if is_running(p) {
            Driver { phase: Phase::Faulted(Fault::UncaughtError), ..d }
        } else {
            d
        },
        _ => d,
    }
}

/// The driver after a sequence of events, in order.
pub open spec fn run_events(d: Driver, events: Seq<Event>) -> Driver
    decreases events.len(),
{
    if events.len() == 0 {
        d
    } else {
        run_events(next_driver(d, events[0]), events.drop_first())
    }
}

/// The exit status of a driver whose run has ended.
pub open spec fn status_of(d: Driver) -> Option<i32> {
    match d.phase {
        Phase::Completed => Some(d.exit_code),
        Phase::Faulted(f) => Some(fault_code(f)),
        _ => None,
    }
}

/// The action that a driver asks for.
pub open spec fn action_of(d: Driver) -> Action {
    match d.phase {
        Phase::Unbootstrapped => Action::CreateIsolate,
        Phase::Bootstrapped => Action::ExecuteMainModule,
        Phase::Executing => Action::AwaitExecution,
        Phase::Draining => Action::RunEventLoop,
        Phase::Completed => Action::Exit(d.exit_code),
        Phase::Faulted(f) => Action::Exit(fault_code(f)),
    }
}

/// An event that sets the exit code.
pub open spec fn is_exit_event(e: Event) -> bool {
    e is ExitCodeSet || e is ExitRequested
}

impl Driver {
    /// A driver before the isolate exists, with exit code zero.
    pub fn new() -> (r: Driver)
        ensures
            r.phase == Phase::Unbootstrapped,
            r.exit_code == 0,
    {
        Driver { phase: Phase::Unbootstrapped, exit_code: 0 }
    }

    /// Takes one event into account.
    pub fn step(self, e: Event) -> (r: Driver)
        ensures
            r == next_driver(self, e),
    {
        let running = match self.phase {
            Phase::Executing | Phase::Draining => true,
            _ => false,
        };
        match (self.phase, e) {
            (Phase::Unbootstrapped, Event::IsolateReady) => Driver { phase: Phase::Bootstrapped, ..self },
            (Phase::Unbootstrapped, Event::IsolateFailed) => Driver {
                phase: Phase::Faulted(Fault::StartupFailed),
                ..self
            },
            (Phase::Bootstrapped, Event::ExecutionStarted) => Driver { phase: Phase::Executing, ..self },
            (Phase::Bootstrapped, Event::ModuleNotFound) => Driver {
                phase: Phase::Faulted(Fault::ModuleNotFound),
                ..self
            },
            (Phase::Bootstrapped, Event::UnsupportedScheme) => Driver {
                phase: Phase::Faulted(Fault::UnsupportedScheme),
                ..self
            },
            (Phase::Executing, Event::ExecutionReturned) => Driver { phase: Phase::Draining, ..self },
            (Phase::Draining, Event::LoopIdle) => Driver { phase: Phase::Completed, ..self },
            (_, Event::ExitCodeSet(n)) => if running {
                Driver { exit_code: n, ..self }
            } else {
                self
            },
            (_, Event::ExitRequested(n)) => if running {
                Driver { phase: Phase::Completed, exit_code: n }
            } else {
                self
            },
            (_, Event::UnstableFeatureUsed) => if running {
                Driver { phase: Phase::Faulted(Fault::UnstableFeature), ..self }
            } else {
                self
            },
            (_, Event::UncaughtError) => if running {
                Driver { phase: Phase::Faulted(Fault::UncaughtError), ..self }
            } else {
                self
            },
            _ => self,
        }
    }

    /// The action to perform next; `Exit` once the run has ended.
    pub fn next_action(&self) -> (r: Action)
        ensures
            r == action_of(*self),
    {
        match self.phase {
            Phase::Unbootstrapped => Action::CreateIsolate,
            Phase::Bootstrapped => Action::ExecuteMainModule,
            Phase::Executing => Action::AwaitExecution,
            Phase::Draining => Action::RunEventLoop,
            Phase::Completed => Action::Exit(self.exit_code),
            Phase::Faulted(f) => Action::Exit(fault_exit_code(f)),
        }
    }

    /// The exit status of the run, once it has ended.
    pub fn exit_status(&self) -> (r: Option<i32>)
        ensures
            r == status_of(*self),
    {
        match self.phase {
            Phase::Completed => Some(self.exit_code),
            Phase::Faulted(f) => Some(fault_exit_code(f)),
            _ => None,
        }
    }
}

/// The exit status that a fault gives the process.
pub fn fault_exit_code(f: Fault) -> (r: i32)
    ensures
        r == fault_code(f),
{
    match f {
        Fault::UnstableFeature => UNSTABLE_EXIT_CODE,
        _ => ERROR_EXIT_CODE,
    }
}

/// Once a run has ended, no event changes it.
pub proof fn ended_run_stays_ended(d: Driver, events: Seq<Event>)
    requires
        is_terminal(d.phase),
    ensures
        run_events(d, events) == d,
    decreases events.len(),
{
    if events.len() > 0 {
        ended_run_stays_ended(next_driver(d, events[0]), events.drop_first());
    }
}

/// Events that set no exit code leave the recorded exit code as it is.
pub proof fn exit_code_kept_without_exit_events(d: Driver, events: Seq<Event>)
    requires
        forall|i: int| 0 <= i < events.len() ==> !is_exit_event(#[trigger] events[i]),
    ensures
        run_events(d, events).exit_code == d.exit_code,
    decreases events.len(),
{
    if events.len() > 0 {
        assert(!is_exit_event(events[0]));
        let rest = events.drop_first();
        assert forall|i: int| 0 <= i < rest.len() implies !is_exit_event(#[trigger] rest[i]) by {
            assert(rest[i] == events[i + 1]);
        }
        exit_code_kept_without_exit_events(next_driver(d, events[0]), rest);
    }
}

/// A script that never sets an exit code and whose run completes (the event
/// loop drained) exits with code zero.
pub proof fn completed_run_without_exit_is_zero(events: Seq<Event>)
    requires
        forall|i: int| 0 <= i < events.len() ==> !is_exit_event(#[trigger] events[i]),
        run_events(Driver { phase: Phase::Unbootstrapped, exit_code: 0 }, events).phase
            == Phase::Completed,
    ensures
        status_of(run_events(Driver { phase: Phase::Unbootstrapped, exit_code: 0 }, events))
            == Some(0i32),
{
    exit_code_kept_without_exit_events(Driver { phase: Phase::Unbootstrapped, exit_code: 0 }, events);
}

/// A script that asks to exit with code `n` while it runs exits with `n`,
/// whatever work is still pending and whatever happens afterwards.
pub proof fn exit_request_decides_code(d: Driver, n: i32, rest: Seq<Event>)
    requires
        is_running(d.phase),
    ensures
        status_of(run_events(d, seq![Event::ExitRequested(n)] + rest)) == Some(n),
{
    let events = seq![Event::ExitRequested(n)] + rest;
    assert(events.drop_first() =~= rest);
    ended_run_stays_ended(next_driver(d, Event::ExitRequested(n)), rest);
}

/// A script that uses a capability that was not enabled exits with the
/// reserved code, whatever happens afterwards; that code is not the one
/// that other errors give.
pub proof fn unstable_use_exits_reserved(d: Driver, rest: Seq<Event>)
    requires
        is_running(d.phase),
    ensures
        status_of(run_events(d, seq![Event::UnstableFeatureUsed] + rest)) == Some(UNSTABLE_EXIT_CODE),
        UNSTABLE_EXIT_CODE != ERROR_EXIT_CODE,
{
    let events = seq![Event::UnstableFeatureUsed] + rest;
    assert(events.drop_first() =~= rest);
    ended_run_stays_ended(next_driver(d, Event::UnstableFeatureUsed), rest);
}

/// A script that raises an error nothing catches exits with a non-zero code.
pub proof fn uncaught_error_exits_nonzero(d: Driver, rest: Seq<Event>)
    requires
        is_running(d.phase),
    ensures
        status_of(run_events(d, seq![Event::UncaughtError] + rest)) == Some(ERROR_EXIT_CODE),
        ERROR_EXIT_CODE != 0,
{
    let events = seq![Event::UncaughtError] + rest;
    assert(events.drop_first() =~= rest);
    ended_run_stays_ended(next_driver(d, Event::UncaughtError), rest);
}

} // verus!
