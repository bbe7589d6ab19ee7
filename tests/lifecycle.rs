use task::lifecycle::{diagnostic, step, Action, Event, Phase, Stage, Transition};

fn t(next: Phase, action: Action, report: Option<Stage>) -> Option<Transition> {
    Some(Transition { next, action, report })
}

#[test]
fn start_calls_init() {
    assert_eq!(
        step(Phase::Created, Event::Start),
        t(Phase::Initializing, Action::CallInit, None)
    );
}

#[test]
fn init_success_calls_run() {
    assert_eq!(
        step(Phase::Initializing, Event::InitSucceeded),
        t(Phase::Running, Action::CallRun, None)
    );
}

#[test]
fn init_failure_reports_and_exits() {
    assert_eq!(
        step(Phase::Initializing, Event::InitFailed),
        t(Phase::Failed, Action::Exit, Some(Stage::Init))
    );
}

#[test]
fn run_success_sleeps() {
    assert_eq!(
        step(Phase::Running, Event::RunSucceeded),
        t(Phase::Sleeping, Action::Sleep, None)
    );
}

#[test]
fn run_failure_reports_and_terminates() {
    assert_eq!(
        step(Phase::Running, Event::RunFailed),
        t(Phase::Terminating, Action::CallTerminate, Some(Stage::Run))
    );
}

#[test]
fn wake_without_stop_runs_again() {
    assert_eq!(
        step(Phase::Sleeping, Event::Woke { stop_requested: false }),
        t(Phase::Running, Action::CallRun, None)
    );
}

#[test]
fn wake_with_stop_terminates() {
    assert_eq!(
        step(Phase::Sleeping, Event::Woke { stop_requested: true }),
        t(Phase::Terminating, Action::CallTerminate, None)
    );
}

#[test]
fn terminated_stops() {
    assert_eq!(
        step(Phase::Terminating, Event::Terminated),
        t(Phase::Stopped, Action::Exit, None)
    );
}

#[test]
fn final_phases_accept_nothing() {
    let events = [
        Event::Start,
        Event::InitSucceeded,
        Event::InitFailed,
        Event::RunSucceeded,
        Event::RunFailed,
        Event::Woke { stop_requested: false },
        Event::Woke { stop_requested: true },
        Event::Terminated,
    ];
    for e in events {
        assert_eq!(step(Phase::Stopped, e), None);
        assert_eq!(step(Phase::Failed, e), None);
    }
}

#[test]
fn out_of_turn_events_are_refused() {
    assert_eq!(step(Phase::Created, Event::RunSucceeded), None);
    assert_eq!(step(Phase::Initializing, Event::Terminated), None);
    assert_eq!(step(Phase::Running, Event::Woke { stop_requested: true }), None);
    assert_eq!(step(Phase::Sleeping, Event::RunFailed), None);
    assert_eq!(step(Phase::Terminating, Event::Start), None);
}

#[test]
fn diagnostic_for_init() {
    assert_eq!(
        diagnostic(Stage::Init, "fail_init", "Init NOK"),
        "Fail to init fail_init: Init NOK"
    );
}

#[test]
fn diagnostic_for_run() {
    assert_eq!(diagnostic(Stage::Run, "nominal", "Run done"), "Fail to run nominal: Run done");
}
