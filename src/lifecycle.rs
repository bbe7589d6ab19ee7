use vstd::prelude::*;

verus! {

/// Where the background worker stands in a task's lifecycle.
#[derive(Clone, Copy, Debug, PartialEq, Eq, Structural)]
pub enum Phase {
    /// Not started yet.
    Created,
    /// `init` has been called and has not returned.
    Initializing,
    /// `run` has been called and has not returned.
    Running,
    /// Sleeping one period after a successful `run`.
    Sleeping,
    /// `terminate` has been called and has not returned.
    Terminating,
    /// The loop ended and `terminate` has run: the worker exits.
    Stopped,
    /// `init` failed: the worker exits without running or terminating.
    Failed,
}

/// What the worker observed since its last action.
#[derive(Clone, Copy, Debug, PartialEq, Eq, Structural)]
pub enum Event {
    /// The worker has been spawned.
    Start,
    InitSucceeded,
    InitFailed,
    RunSucceeded,
    RunFailed,
    /// The sleep is over; `stop_requested` is the stop flag read right after waking.
    Woke { stop_requested: bool },
    /// `terminate` has returned.
    Terminated,
}

/// What the worker does next.
#[derive(Clone, Copy, Debug, PartialEq, Eq, Structural)]
pub enum Action {
    CallInit,
    CallRun,
    /// Sleep for exactly one period, then read the stop flag.
    Sleep,
    CallTerminate,
    /// Return from the worker's body.
    Exit,
}

/// The lifecycle operation whose failure is to be reported.
#[derive(Clone, Copy, Debug, PartialEq, Eq, Structural)]
pub enum Stage {
    Init,
    Run,
}

/// The outcome of one step: the next phase, the action to perform,
/// and the failure to report first, if any.
#[derive(Clone, Copy, Debug, PartialEq, Eq)]
pub struct Transition {
    pub next: Phase,
    pub action: Action,
    pub report: Option<Stage>,
}

/// The lifecycle operations of a task definition, as the worker calls them.
#[derive(Clone, Copy, Debug, PartialEq, Eq, Structural)]
pub enum Call {
    Init,
    Run,
    Terminate,
}

/// The transition table of the worker. `None` where the event cannot occur in the phase.
pub open spec fn transition(p: Phase, e: Event) -> Option<Transition> {
    match (p, e) {
        (Phase::Created, Event::Start) => Some(
            Transition { next: Phase::Initializing, action: Action::CallInit, report: None },
        ),
        (Phase::Initializing, Event::InitSucceeded) => Some(
            Transition { next: Phase::Running, action: Action::CallRun, report: None },
        ),
        (Phase::Initializing, Event::InitFailed) => Some(
            Transition { next: Phase::Failed, action: Action::Exit, report: Some(Stage::Init) },
        ),
        (Phase::Running, Event::RunSucceeded) => Some(
            Transition { next: Phase::Sleeping, action: Action::Sleep, report: None },
        ),
        (Phase::Running, Event::RunFailed) => Some(
            Transition {
                next: Phase::Terminating,
                action: Action::CallTerminate,
                report: Some(Stage::Run),
            },
        ),
        (Phase::Sleeping, Event::Woke { stop_requested }) => if stop_requested {
            Some(Transition { next: Phase::Terminating, action: Action::CallTerminate, report: None })
        } else {
            Some(Transition { next: Phase::Running, action: Action::CallRun, report: None })
        },
        (Phase::Terminating, Event::Terminated) => Some(
            Transition { next: Phase::Stopped, action: Action::Exit, report: None },
        ),
        _ => None,
    }
}

/// Whether `e` is a possible outcome of performing `a`.
pub open spec fn answers(a: Action, e: Event) -> bool {
    match a {
        Action::CallInit => e is InitSucceeded || e is InitFailed,
        Action::CallRun => e is RunSucceeded || e is RunFailed,
        Action::Sleep => e is Woke,
        Action::CallTerminate => e is Terminated,
        Action::Exit => false,
    }
}

/// The worker's decision: from its phase and what it observed, the next phase and action.
pub fn step(phase: Phase, event: Event) -> (r: Option<Transition>)
    ensures
        r == transition(phase, event),
{
    match (phase, event) {
        (Phase::Created, Event::Start) => Some(
            Transition { next: Phase::Initializing, action: Action::CallInit, report: None },
        ),
        (Phase::Initializing, Event::InitSucceeded) => Some(
            Transition { next: Phase::Running, action: Action::CallRun, report: None },
        ),
        (Phase::Initializing, Event::InitFailed) => Some(
            Transition { next: Phase::Failed, action: Action::Exit, report: Some(Stage::Init) },
        ),
        (Phase::Running, Event::RunSucceeded) => Some(
            Transition { next: Phase::Sleeping, action: Action::Sleep, report: None },
        ),
        (Phase::Running, Event::RunFailed) => Some(
            Transition {
                next: Phase::Terminating,
                action: Action::CallTerminate,
                report: Some(Stage::Run),
            },
        ),
        (Phase::Sleeping, Event::Woke { stop_requested }) => {
            if stop_requested {
                Some(
                    Transition {
                        next: Phase::Terminating,
                        action: Action::CallTerminate,
                        report: None,
                    },
                )
            } else {
                Some(Transition { next: Phase::Running, action: Action::CallRun, report: None })
            }
        },
        (Phase::Terminating, Event::Terminated) => Some(
            Transition { next: Phase::Stopped, action: Action::Exit, report: None },
        ),
        _ => None,
    }
}

/// The diagnostic line for a failed lifecycle operation of the task named `name`.
pub open spec fn diagnostic_text(stage: Stage, name: Seq<char>, error: Seq<char>) -> Seq<char> {
    let head = match stage {
        Stage::Init => "Fail to init "@,
        Stage::Run => "Fail to run "@,
    };
    head + name + ": "@ + error
}

/// The diagnostic line reported when `init` or `run` of the task named `name` fails with `error`.
pub fn diagnostic(stage: Stage, name: &str, error: &str) -> (r: String)
    ensures
        r@ == diagnostic_text(stage, name@, error@),
{
    let mut line = match stage {
        Stage::Init => String::from_str("Fail to init "),
        Stage::Run => String::from_str("Fail to run "),
    };
    line.append(name);
    line.append(": ");
    line.append(error);
    line
}

} // verus!
