//! What holds of every run of the engine, whatever events it is given.

use crate::engine::{
    first, next, Action, Event, Step, Supervision, KILL_FAILED_CODE, POLL_INTERVAL_MS,
    WAIT_HINT_MARGIN_MS,
};
use crate::policy::{decision, Decision, PolicyModel};
use vstd::prelude::*;

verus! {

/// The settings that a run depends on.
pub struct Rules {
    /// Milliseconds that the command is given to stop.
    pub timeout: u64,
    pub policy: PolicyModel,
    pub pass_codes: Set<i32>,
}

/// Where the service stands, and what the last step gave, after the engine was
/// started with the stop flag `stop` and then given `inputs` in turn: each an
/// event together with the stop flag as it stood then.
pub open spec fn run(rules: Rules, stop: bool, inputs: Seq<(Event, bool)>) -> (Supervision, Step)
    decreases inputs.len(),
{
    if inputs.len() == 0 {
        first(stop)
    } else {
        next(
            rules.timeout,
            rules.policy,
            rules.pass_codes,
            run(rules, stop, inputs.drop_last()).0,
            inputs.last().0,
            inputs.last().1,
        )
    }
}

/// A step leaves a well-formed supervision well-formed.
pub proof fn next_keeps_wf(rules: Rules, s: Supervision, event: Event, stop: bool)
    requires
        s.wf(rules.timeout),
    ensures
        next(rules.timeout, rules.policy, rules.pass_codes, s, event, stop).0.wf(rules.timeout),
{
}

/// Every run leaves the supervision well-formed.
pub proof fn run_is_wf(rules: Rules, stop: bool, inputs: Seq<(Event, bool)>)
    ensures
        run(rules, stop, inputs).0.wf(rules.timeout),
    decreases inputs.len(),
{
    if inputs.len() > 0 {
        run_is_wf(rules, stop, inputs.drop_last());
        next_keeps_wf(
            rules,
            run(rules, stop, inputs.drop_last()).0,
            inputs.last().0,
            inputs.last().1,
        );
    }
}

/// States are passed through in one direction only: a step never goes back to
/// an earlier state, and a service that has ended stays exactly as it is.
pub proof fn states_only_advance(rules: Rules, s: Supervision, event: Event, stop: bool)
    requires
        s.wf(rules.timeout),
    ensures
        ({
            let after = next(rules.timeout, rules.policy, rules.pass_codes, s, event, stop).0;
            &&& s.state.rank() <= after.state.rank()
            &&& s.state.is_terminal() ==> after == s
        }),
{
}

/// How a step changes the number of commands alive: an event that the engine
/// heeds adds one where it says that a command was started, and takes one away
/// where it says that the command has exited or was killed.
pub open spec fn live_change(s: Supervision, event: Event) -> int {
    if s.state.is_terminal() || !event.answers(s.pending) {
        0
    } else if event is SpawnSucceeded {
        1
    } else if event is ChildExited || event is Killed {
        -1
    } else {
        0
    }
}

/// The number of commands alive after a run.
pub open spec fn live_children(rules: Rules, stop: bool, inputs: Seq<(Event, bool)>) -> int
    decreases inputs.len(),
{
    if inputs.len() == 0 {
        0
    } else {
        live_children(rules, stop, inputs.drop_last()) + live_change(
            run(rules, stop, inputs.drop_last()).0,
            inputs.last().0,
        )
    }
}

/// At most one command is alive at any time: the engine asks for a command to
/// be started only when none is alive, and takes one to be alive exactly when
/// one is. No command outlives the service, unless the service has failed
/// because the command could not be killed.
pub proof fn at_most_one_child(rules: Rules, stop: bool, inputs: Seq<(Event, bool)>)
    ensures
        0 <= live_children(rules, stop, inputs) <= 1,
        run(rules, stop, inputs).0.has_child() ==> live_children(rules, stop, inputs) == 1,
        run(rules, stop, inputs).0.pending is Spawn ==> live_children(rules, stop, inputs) == 0,
        run(rules, stop, inputs).0.state is Stopped ==> live_children(rules, stop, inputs) == 0,
        run(rules, stop, inputs).0.state is Failed && run(rules, stop, inputs).0.pending != (
        Action::Exit { code: KILL_FAILED_CODE }) ==> live_children(rules, stop, inputs) == 0,
    decreases inputs.len(),
{
    if inputs.len() > 0 {
        at_most_one_child(rules, stop, inputs.drop_last());
        run_is_wf(rules, stop, inputs.drop_last());
    }
}

/// Reports never go back, and every report of a pending state carries a larger
/// checkpoint than every report before it: for two steps of a run, the later
/// report's checkpoint is at least the earlier one's, and larger where the
/// later report is of a pending state.
pub proof fn checkpoints_increase(
    rules: Rules,
    stop: bool,
    inputs: Seq<(Event, bool)>,
    i: int,
    j: int,
)
    requires
        0 <= i < j <= inputs.len(),
    ensures
        ({
            let earlier = run(rules, stop, inputs.take(i)).1.report;
            let later = run(rules, stop, inputs.take(j)).1.report;
            earlier matches Some(a) ==> (later matches Some(b) ==> {
                &&& a.checkpoint <= b.checkpoint
                &&& b.state.is_pending() ==> a.checkpoint < b.checkpoint
            })
        }),
{
    let before = inputs.take(j - 1);
    assert(inputs.take(j).drop_last() =~= before);
    assert(inputs.take(j).last() == inputs[j - 1]);
    assert(before.take(i) =~= inputs.take(i));
    report_is_current(rules, stop, inputs.take(i));
    report_is_current(rules, stop, inputs.take(j));
    checkpoint_grows(rules, stop, before, i);
    run_is_wf(rules, stop, before);
}

/// A report carries the checkpoint that the supervision holds after the step.
pub proof fn report_is_current(rules: Rules, stop: bool, inputs: Seq<(Event, bool)>)
    ensures
        run(rules, stop, inputs).1.report matches Some(r) ==> r.checkpoint == run(
            rules,
            stop,
            inputs,
        ).0.checkpoint,
{
    if inputs.len() > 0 {
        run_is_wf(rules, stop, inputs.drop_last());
    }
}

/// The checkpoint that the supervision holds never gets smaller.
pub proof fn checkpoint_grows(rules: Rules, stop: bool, inputs: Seq<(Event, bool)>, i: int)
    requires
        0 <= i <= inputs.len(),
    ensures
        run(rules, stop, inputs.take(i)).0.checkpoint <= run(rules, stop, inputs).0.checkpoint,
    decreases inputs.len() - i,
{
    if i == inputs.len() {
        assert(inputs.take(i) =~= inputs);
    } else {
        let shorter = inputs.drop_last();
        assert(shorter.take(i) =~= inputs.take(i));
        checkpoint_grows(rules, stop, shorter, i);
        run_is_wf(rules, stop, shorter);
    }
}

/// Where the service stands after `polls` waits in a row at whose end the
/// command was still running.
pub open spec fn after_waits(rules: Rules, s: Supervision, stop: bool, polls: nat) -> Supervision
    decreases polls,
{
    if polls == 0 {
        s
    } else {
        after_waits(
            rules,
            next(rules.timeout, rules.policy, rules.pass_codes, s, Event::ChildRunning, stop).0,
            stop,
            (polls - 1) as nat,
        )
    }
}

/// A stop escalates at the deadline. While the command is given time to stop,
/// the waits that the engine asks for never add up to more than the stop
/// timeout; and once enough waits have ended with the command still running to
/// cover what is left of that time, the engine has asked for the kill, having
/// asked for waits of exactly the stop timeout in all.
pub proof fn kill_follows_the_deadline(rules: Rules, s: Supervision, stop: bool, polls: nat)
    requires
        s.wf(rules.timeout),
        s.state is StoppingGraceful,
        s.pending is Poll,
        polls >= 1,
        s.waited_ms + polls * POLL_INTERVAL_MS >= rules.timeout,
    ensures
        s.waited_ms + s.pending->wait_ms <= rules.timeout,
        after_waits(rules, s, stop, polls).state is StoppingForced,
        after_waits(rules, s, stop, polls).pending is Kill,
        after_waits(rules, s, stop, polls).waited_ms == rules.timeout,
    decreases polls,
{
    let once = next(rules.timeout, rules.policy, rules.pass_codes, s, Event::ChildRunning, stop).0;
    next_keeps_wf(rules, s, Event::ChildRunning, stop);
    if once.state is StoppingForced {
        forced_stays(rules, once, stop, (polls - 1) as nat);
    } else {
        assert(once.waited_ms == s.waited_ms + POLL_INTERVAL_MS);
        assert(polls >= 2) by (nonlinear_arith)
            requires
                polls >= 1,
                s.waited_ms + polls * POLL_INTERVAL_MS >= rules.timeout,
                s.waited_ms + POLL_INTERVAL_MS < rules.timeout,
        ;
        assert(once.waited_ms + (polls - 1) * POLL_INTERVAL_MS >= rules.timeout)
            by (nonlinear_arith)
            requires
                once.waited_ms == s.waited_ms + POLL_INTERVAL_MS,
                s.waited_ms + polls * POLL_INTERVAL_MS >= rules.timeout,
        ;
        kill_follows_the_deadline(rules, once, stop, (polls - 1) as nat);
    }
}

/// While the kill is asked for, a command that is still running changes nothing.
proof fn forced_stays(rules: Rules, s: Supervision, stop: bool, polls: nat)
    requires
        s.state is StoppingForced,
        s.pending is Kill,
    ensures
        after_waits(rules, s, stop, polls) == s,
    decreases polls,
{
    if polls > 0 {
        forced_stays(rules, s, stop, (polls - 1) as nat);
    }
}

/// The host hears of every step into or within a pending state: whenever an
/// event that the engine heeds leaves the service in a pending state, the step
/// carries a report of that state whose checkpoint is one more than the last,
/// and whose wait hint is more than the wait that the step asks for.
pub proof fn pending_steps_are_reported(rules: Rules, s: Supervision, event: Event, stop: bool)
    requires
        s.wf(rules.timeout),
        event.answers(s.pending),
        !s.state.is_terminal(),
    ensures
        ({
            let (after, step) = next(
                rules.timeout,
                rules.policy,
                rules.pass_codes,
                s,
                event,
                stop,
            );
            after.state.is_pending() ==> {
                &&& step.report matches Some(report)
                &&& report.state == after.state
                &&& report.checkpoint == s.checkpoint + 1
                &&& report.wait_hint_ms >= WAIT_HINT_MARGIN_MS
                &&& step.action matches Action::Poll { wait_ms } ==> wait_ms < report.wait_hint_ms
            }
        }),
{
}

/// What follows when the running command exits on its own. The command is
/// started again exactly when the policy says so and no stop was asked for.
/// Otherwise the service ends as stopped: with exit code zero where the
/// command's code is a pass code, and with the command's code in every other
/// case.
pub proof fn exit_follows_the_policy(rules: Rules, s: Supervision, code: i32, stop: bool)
    requires
        s.wf(rules.timeout),
        s.state is Running,
        s.pending is Poll,
    ensures
        ({
            let (after, step) = next(
                rules.timeout,
                rules.policy,
                rules.pass_codes,
                s,
                Event::ChildExited(code),
                stop,
            );
            let restart = decision(code, rules.policy, rules.pass_codes) == Decision::Restart
                && !stop;
            &&& restart ==> after.state is Running && step.action is Spawn
            &&& !restart ==> after.state is Stopped && step.action == (Action::Exit {
                code: if rules.pass_codes.contains(code) {
                    0
                } else {
                    code
                },
            })
        }),
{
}

/// Only a fatal fault fails the service: it comes to fail only when the command
/// could not be started, when the command could not be killed, or when the
/// host did not take a report, at once or after the command was killed for it.
pub proof fn only_fatal_faults_fail(rules: Rules, s: Supervision, event: Event, stop: bool)
    requires
        s.wf(rules.timeout),
        !(s.state is Failed),
        next(rules.timeout, rules.policy, rules.pass_codes, s, event, stop).0.state is Failed,
    ensures
        event is SpawnFailed || event is KillFailed || event is ReportFailed || (event is Killed
            && s.fault is Some),
{
}

} // verus!
