use vstd::prelude::*;

use crate::lifecycle::{answers, transition, Action, Call, Event, Phase};

verus! {

/// Feeds `es` to a worker in phase `Created`, one event at a time. The phase reached and
/// the actions taken, one per event; `None` if some event could not occur where it came.
pub open spec fn replay(es: Seq<Event>) -> Option<(Phase, Seq<Action>)>
    decreases es.len(),
{
    if es.len() == 0 {
        Some((Phase::Created, Seq::empty()))
    } else {
        match replay(es.drop_last()) {
            None => None,
            Some((p, acts)) => match transition(p, es.last()) {
                None => None,
                Some(t) => Some((t.next, acts.push(t.action))),
            },
        }
    }
}

/// The phase that `replay` reaches.
pub open spec fn phase_after(es: Seq<Event>) -> Phase {
    match replay(es) {
        Some((p, _)) => p,
        None => Phase::Created,
    }
}

/// The actions that `replay` takes.
pub open spec fn actions_after(es: Seq<Event>) -> Seq<Action> {
    match replay(es) {
        Some((_, acts)) => acts,
        None => Seq::empty(),
    }
}

/// The lifecycle operation that an action calls, if any.
pub open spec fn call_of(a: Action) -> Option<Call> {
    match a {
        Action::CallInit => Some(Call::Init),
        Action::CallRun => Some(Call::Run),
        Action::CallTerminate => Some(Call::Terminate),
        _ => None,
    }
}

/// The lifecycle operations called by a sequence of actions, in order.
pub open spec fn calls(acts: Seq<Action>) -> Seq<Call>
    decreases acts.len(),
{
    if acts.len() == 0 {
        Seq::empty()
    } else {
        match call_of(acts.last()) {
            Some(c) => calls(acts.drop_last()).push(c),
            None => calls(acts.drop_last()),
        }
    }
}

/// `init`, then `runs` calls of `run`, then `terminate` if `terminated`.
pub open spec fn lifecycle_calls(runs: nat, terminated: bool) -> Seq<Call> {
    seq![Call::Init] + Seq::new(runs, |_i: int| Call::Run) + if terminated {
        seq![Call::Terminate]
    } else {
        Seq::empty()
    }
}

/// How many events of `es` satisfy `f`.
pub open spec fn count(es: Seq<Event>, f: spec_fn(Event) -> bool) -> nat
    decreases es.len(),
{
    if es.len() == 0 {
        0
    } else {
        count(es.drop_last(), f) + if f(es.last()) {
            1nat
        } else {
            0nat
        }
    }
}

pub open spec fn init_failures(es: Seq<Event>) -> nat {
    count(es, |e: Event| e is InitFailed)
}

pub open spec fn run_successes(es: Seq<Event>) -> nat {
    count(es, |e: Event| e is RunSucceeded)
}

pub open spec fn run_failures(es: Seq<Event>) -> nat {
    count(es, |e: Event| e is RunFailed)
}

/// How many periods were slept through.
pub open spec fn wakes(es: Seq<Event>) -> nat {
    count(es, |e: Event| e is Woke)
}

/// How many wake-ups found the stop flag set.
pub open spec fn stops_seen(es: Seq<Event>) -> nat {
    count(es, |e: Event| e matches Event::Woke { stop_requested } && stop_requested)
}

/// Whether `a` is the action that a transition into `p` takes.
pub open spec fn issued_into(a: Action, p: Phase) -> bool {
    match a {
        Action::CallInit => p is Initializing,
        Action::CallRun => p is Running,
        Action::Sleep => p is Sleeping,
        Action::CallTerminate => p is Terminating,
        Action::Exit => p is Stopped || p is Failed,
    }
}

/// What holds of every history that the worker accepts.
pub open spec fn consistent(es: Seq<Event>, p: Phase, acts: Seq<Action>) -> bool {
    let answered = run_successes(es) + run_failures(es);
    &&& acts.len() == es.len()
    &&& (es.len() == 0 <==> p is Created)
    &&& es.len() > 0 ==> es[0] == Event::Start && issued_into(acts.last(), p)
    &&& forall|i: int| 0 < i < es.len() ==> answers(#[trigger] acts[i - 1], es[i])
    &&& (p is Created || p is Initializing || p is Failed) ==> answered == 0
    &&& init_failures(es) == if p is Failed {
        1nat
    } else {
        0nat
    }
    &&& run_failures(es) + stops_seen(es) == if p is Terminating || p is Stopped {
        1nat
    } else {
        0nat
    }
    &&& run_successes(es) == wakes(es) + if p is Sleeping {
        1nat
    } else {
        0nat
    }
    &&& calls(acts) == match p {
        Phase::Created => Seq::empty(),
        Phase::Initializing | Phase::Failed => lifecycle_calls(0, false),
        Phase::Running => lifecycle_calls(answered + 1, false),
        Phase::Sleeping => lifecycle_calls(answered, false),
        Phase::Terminating | Phase::Stopped => lifecycle_calls(answered, true),
    }
}

proof fn lemma_issued_into_answers(a: Action, p: Phase, e: Event)
    requires
        issued_into(a, p),
    ensures
        transition(p, e) is Some <==> answers(a, e),
{
}

proof fn lemma_replay_consistent(es: Seq<Event>)
    ensures
        replay(es) matches Some((p, acts)) ==> consistent(es, p, acts),
    decreases es.len(),
{
    if es.len() > 0 {
        let prev = es.drop_last();
        lemma_replay_consistent(prev);
        if let Some((q, prev_acts)) = replay(prev) {
            let e = es.last();
            if let Some(t) = transition(q, e) {
                let acts = prev_acts.push(t.action);
                assert(acts.drop_last() =~= prev_acts);
                if prev.len() > 0 {
                    assert(es[0] == prev[0]);
                    lemma_issued_into_answers(prev_acts.last(), q, e);
                }
                assert forall|i: int| 0 < i < es.len() implies answers(
                    #[trigger] acts[i - 1],
                    es[i],
                ) by {
                    if i < prev.len() {
                        assert(acts[i - 1] == prev_acts[i - 1]);
                        assert(es[i] == prev[i]);
                    }
                }
                let answered = run_successes(prev) + run_failures(prev);
                match q {
                    Phase::Created => {
                        assert(calls(acts) =~= lifecycle_calls(0, false));
                    },
                    Phase::Initializing => {
                        assert(calls(prev_acts).push(Call::Run) =~= lifecycle_calls(1, false));
                    },
                    Phase::Running => {
                        assert(calls(prev_acts).push(Call::Terminate) =~= lifecycle_calls(
                            answered + 1,
                            true,
                        ));
                    },
                    Phase::Sleeping => {
                        assert(calls(prev_acts).push(Call::Run) =~= lifecycle_calls(
                            answered + 1,
                            false,
                        ));
                        assert(calls(prev_acts).push(Call::Terminate) =~= lifecycle_calls(
                            answered,
                            true,
                        ));
                    },
                    _ => {},
                }
            }
        }
    }
}

/// Once the worker has issued an action, the only events it accepts are the outcomes of
/// that action: no lifecycle call is ever issued while another one is still running.
pub proof fn lemma_one_call_at_a_time(p: Phase, e: Event, next: Event)
    requires
        transition(p, e) is Some,
    ensures
        transition(transition(p, e)->0.next, next) is Some <==> answers(
            transition(p, e)->0.action,
            next,
        ),
{
}

/// In every history the worker accepts, each event answers the action taken just before it,
/// and the lifecycle operations are called strictly in the order `init`, `run`...,
/// `terminate`.
pub proof fn lemma_calls_in_order(es: Seq<Event>)
    requires
        replay(es) is Some,
    ensures
        es.len() > 0 ==> es[0] == Event::Start,
        forall|i: int| 0 < i < es.len() ==> answers(#[trigger] actions_after(es)[i - 1], es[i]),
        calls(actions_after(es)).len() == 0 || exists|runs: nat, terminated: bool|
            calls(actions_after(es)) == lifecycle_calls(runs, terminated),
{
    lemma_replay_consistent(es);
    let p = phase_after(es);
    let acts = actions_after(es);
    let answered = run_successes(es) + run_failures(es);
    match p {
        Phase::Created => {},
        Phase::Initializing | Phase::Failed => {
            assert(calls(acts) == lifecycle_calls(0, false));
        },
        Phase::Running => {
            assert(calls(acts) == lifecycle_calls(answered + 1, false));
        },
        Phase::Sleeping => {
            assert(calls(acts) == lifecycle_calls(answered, false));
        },
        Phase::Terminating | Phase::Stopped => {
            assert(calls(acts) == lifecycle_calls(answered, true));
        },
    }
}

/// After a failed `init`, the worker has called nothing but `init`, has exited, and
/// accepts no further event: `run` and `terminate` are never called.
pub proof fn lemma_init_failure_short_circuits(es: Seq<Event>, later: Event)
    requires
        replay(es) is Some,
        init_failures(es) > 0,
    ensures
        phase_after(es) == Phase::Failed,
        calls(actions_after(es)) == seq![Call::Init],
        transition(phase_after(es), later) is None,
{
    lemma_replay_consistent(es);
    assert(lifecycle_calls(0, false) =~= seq![Call::Init]);
}

/// A worker that stops without a stop request stops because a `run` failed, once; it has
/// then called `run` once more than the number of successful runs, and `terminate` once.
/// So a definition whose `n`-th run is its first failure is run exactly `n` times.
pub proof fn lemma_completion_count(es: Seq<Event>)
    requires
        replay(es) matches Some((p, _)) && p == Phase::Stopped,
        stops_seen(es) == 0,
    ensures
        run_failures(es) == 1,
        calls(actions_after(es)) == lifecycle_calls(run_successes(es) + 1, true),
{
    lemma_replay_consistent(es);
}

/// A worker that has seen the stop flag set has not had a `run` fail, has called or is
/// calling `terminate`, and has called `run` exactly once per period slept: none after the
/// wake-up that saw the flag.
pub proof fn lemma_stop_after_wake(es: Seq<Event>)
    requires
        replay(es) is Some,
        stops_seen(es) > 0,
    ensures
        run_failures(es) == 0,
        stops_seen(es) == 1,
        phase_after(es) == Phase::Terminating || phase_after(es) == Phase::Stopped,
        calls(actions_after(es)) == lifecycle_calls(wakes(es), true),
{
    lemma_replay_consistent(es);
}

/// The events seen by a worker whose definition initialises, then completes `k` cycles: a
/// successful run, then a wake-up with no stop requested.
pub open spec fn quiet_cycles(k: nat) -> Seq<Event>
    decreases k,
{
    if k == 0 {
        seq![Event::Start, Event::InitSucceeded]
    } else {
        quiet_cycles((k - 1) as nat).push(Event::RunSucceeded).push(
            Event::Woke { stop_requested: false },
        )
    }
}

/// The events seen by a worker whose definition's `n`-th run is its first failure, with no
/// stop requested: `n - 1` quiet cycles, the failing run, then the return of `terminate`.
pub open spec fn failing_on_run(n: nat) -> Seq<Event> {
    quiet_cycles((n - 1) as nat).push(Event::RunFailed).push(Event::Terminated)
}

proof fn lemma_quiet_cycles(k: nat)
    ensures
        phase_after(quiet_cycles(k)) == Phase::Running,
        replay(quiet_cycles(k)) is Some,
        run_successes(quiet_cycles(k)) == k,
        stops_seen(quiet_cycles(k)) == 0,
    decreases k,
{
    let s = quiet_cycles(k);
    if k == 0 {
        let first = seq![Event::Start];
        assert(first.drop_last() =~= Seq::<Event>::empty());
        assert(s.drop_last() =~= first);
        assert(first.last() == Event::Start);
        assert(replay(first.drop_last()) == Some((Phase::Created, Seq::<Action>::empty())));
        assert(run_successes(first.drop_last()) == 0);
        assert(stops_seen(first.drop_last()) == 0);
        assert(replay(first) == Some((Phase::Initializing, Seq::empty().push(Action::CallInit))));
        assert(run_successes(first) == 0);
        assert(stops_seen(first) == 0);
    } else {
        let prev = quiet_cycles((k - 1) as nat);
        lemma_quiet_cycles((k - 1) as nat);
        let acts = actions_after(prev);
        let mid = prev.push(Event::RunSucceeded);
        assert(mid.drop_last() =~= prev);
        assert(s.drop_last() =~= mid);
        assert(replay(mid) == Some((Phase::Sleeping, acts.push(Action::Sleep))));
        assert(run_successes(mid) == k);
        assert(stops_seen(mid) == 0);
    }
}

/// A definition whose `n`-th run is its first failure, never asked to stop, is initialised,
/// run exactly `n` times and terminated, and then the worker stops.
pub proof fn lemma_fails_on_nth_run(n: nat)
    requires
        n >= 1,
    ensures
        phase_after(failing_on_run(n)) == Phase::Stopped,
        calls(actions_after(failing_on_run(n))) == lifecycle_calls(n, true),
{
    let prev = quiet_cycles((n - 1) as nat);
    lemma_quiet_cycles((n - 1) as nat);
    let mid = prev.push(Event::RunFailed);
    let es = failing_on_run(n);
    assert(mid.drop_last() =~= prev);
    assert(es.drop_last() =~= mid);
    let acts = actions_after(prev);
    assert(replay(mid) == Some((Phase::Terminating, acts.push(Action::CallTerminate))));
    assert(run_successes(mid) == n - 1);
    assert(stops_seen(mid) == 0);
    assert(run_successes(es) == n - 1);
    lemma_completion_count(es);
}

} // verus!
