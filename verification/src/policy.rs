//! The restart decision: what to do once the supervised command has exited.

use vstd::prelude::*;

verus! {

/// What the supervisor does after the command has exited on its own.
#[derive(Clone, Copy, Debug, PartialEq, Eq, Structural)]
pub enum Decision {
    /// Start the command again.
    Restart,
    /// Stop, and report a clean stop whatever the exit code was.
    StopSuccess,
    /// Stop, and report the command's own exit code.
    Stop,
}

/// When an exited command is started again. Exactly one rule is in force.
#[derive(Clone, Debug)]
pub enum RestartPolicy {
    /// Restart whatever the exit code.
    Always,
    /// Never restart.
    Never,
    /// Restart only after one of these exit codes.
    IfCodeIn(Vec<i32>),
    /// Restart after any exit code but these.
    IfCodeNotIn(Vec<i32>),
    /// No rule was chosen: restart after a nonzero exit code, stop after zero.
    Default,
}

/// A restart policy with its code lists read as sets.
pub enum PolicyModel {
    Always,
    Never,
    IfCodeIn(Set<i32>),
    IfCodeNotIn(Set<i32>),
    Default,
}

impl View for RestartPolicy {
    type V = PolicyModel;

    open spec fn view(&self) -> PolicyModel {
        match self {
            RestartPolicy::Always => PolicyModel::Always,
            RestartPolicy::Never => PolicyModel::Never,
            RestartPolicy::IfCodeIn(codes) => PolicyModel::IfCodeIn(codes@.to_set()),
            RestartPolicy::IfCodeNotIn(codes) => PolicyModel::IfCodeNotIn(codes@.to_set()),
            RestartPolicy::Default => PolicyModel::Default,
        }
    }
}

/// The decision for an exit code. Pass codes are looked at first, so a pass code
/// stops the service cleanly under every policy; then the policy decides.
pub open spec fn decision(exit_code: i32, policy: PolicyModel, pass_codes: Set<i32>) -> Decision {
    if pass_codes.contains(exit_code) {
        Decision::StopSuccess
    } else {
        match policy {
            PolicyModel::Never => Decision::Stop,
            PolicyModel::Always => Decision::Restart,
            PolicyModel::IfCodeIn(codes) => if codes.contains(exit_code) {
                Decision::Restart
            } else {
                Decision::Stop
            },
            PolicyModel::IfCodeNotIn(codes) => if codes.contains(exit_code) {
                Decision::Stop
            } else {
                Decision::Restart
            },
            PolicyModel::Default => if exit_code != 0 {
                Decision::Restart
            } else {
                Decision::Stop
            },
        }
    }
}

/// True when `code` occurs in `codes`.
pub fn contains_code(codes: &Vec<i32>, code: i32) -> (found: bool)
    ensures
        found == codes@.to_set().contains(code),
{
    let mut i: usize = 0;
    while i < codes.len()
        invariant
            i <= codes.len(),
            forall|j: int| 0 <= j < i ==> codes@[j] != code,
        decreases codes.len() - i,
    {
        if codes[i] == code {
            assert(codes@.contains(code));
            return true;
        }
        i += 1;
    }
    assert(!codes@.contains(code));
    false
}

/// Decides what follows an exit of the command with `exit_code`.
pub fn decide(exit_code: i32, policy: &RestartPolicy, pass_codes: &Vec<i32>) -> (d: Decision)
    ensures
        d == decision(exit_code, policy@, pass_codes@.to_set()),
{
    if contains_code(pass_codes, exit_code) {
        return Decision::StopSuccess;
    }
    match policy {
        RestartPolicy::Never => Decision::Stop,
        RestartPolicy::Always => Decision::Restart,
        RestartPolicy::IfCodeIn(codes) => {
            if contains_code(codes, exit_code) {
                Decision::Restart
            } else {
                Decision::Stop
            }
        },
        RestartPolicy::IfCodeNotIn(codes) => {
            if contains_code(codes, exit_code) {
                Decision::Stop
            } else {
                Decision::Restart
            }
        },
        RestartPolicy::Default => {
            if exit_code != 0 {
                Decision::Restart
            } else {
                Decision::Stop
            }
        },
    }
}

/// A pass code overrides the policy: an exit code among the pass codes gives a
/// clean stop, whichever policy is in force.
pub proof fn pass_code_overrides_policy(exit_code: i32, policy: PolicyModel, pass_codes: Set<i32>)
    requires
        pass_codes.contains(exit_code),
    ensures
        decision(exit_code, policy, pass_codes) == Decision::StopSuccess,
{
}

/// With no pass codes, "restart if in" restarts exactly on the listed codes and
/// stops on all others; "restart if not in" does the opposite.
pub proof fn listed_codes_decide(exit_code: i32, codes: Set<i32>)
    ensures
        decision(exit_code, PolicyModel::IfCodeIn(codes), Set::empty()) == Decision::Restart
            <==> codes.contains(exit_code),
        decision(exit_code, PolicyModel::IfCodeIn(codes), Set::empty()) == Decision::Stop
            <==> !codes.contains(exit_code),
        decision(exit_code, PolicyModel::IfCodeNotIn(codes), Set::empty()) == Decision::Restart
            <==> !codes.contains(exit_code),
        decision(exit_code, PolicyModel::IfCodeNotIn(codes), Set::empty()) == Decision::Stop
            <==> codes.contains(exit_code),
{
}

/// With no pass codes and no chosen rule, exit code zero stops the service and
/// every other exit code restarts the command.
pub proof fn default_policy_restarts_on_failure(exit_code: i32)
    ensures
        decision(0, PolicyModel::Default, Set::empty()) == Decision::Stop,
        exit_code != 0 ==> decision(exit_code, PolicyModel::Default, Set::empty())
            == Decision::Restart,
{
}

} // verus!
