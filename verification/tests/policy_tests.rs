use shawl::policy::{contains_code, decide, Decision, RestartPolicy};

fn policies() -> Vec<RestartPolicy> {
    vec![
        RestartPolicy::Always,
        RestartPolicy::Never,
        RestartPolicy::IfCodeIn(vec![1, 42]),
        RestartPolicy::IfCodeNotIn(vec![1, 42]),
        RestartPolicy::Default,
    ]
}

#[test]
fn contains_code_finds_listed_codes_only() {
    assert!(contains_code(&vec![3, -1, 7], -1));
    assert!(contains_code(&vec![3, -1, 7], 7));
    assert!(!contains_code(&vec![3, -1, 7], 0));
    assert!(!contains_code(&vec![], 0));
}

#[test]
fn pass_code_stops_cleanly_under_every_policy() {
    for policy in policies() {
        for code in [0, 1, 42, -7] {
            assert_eq!(decide(code, &policy, &vec![0, 1, 42, -7]), Decision::StopSuccess);
        }
    }
}

#[test]
fn pass_code_overrides_always() {
    assert_eq!(decide(42, &RestartPolicy::Always, &vec![42]), Decision::StopSuccess);
    assert_eq!(decide(41, &RestartPolicy::Always, &vec![42]), Decision::Restart);
}

#[test]
fn never_stops_and_always_restarts() {
    for code in [0, 1, -1, i32::MAX, i32::MIN] {
        assert_eq!(decide(code, &RestartPolicy::Never, &vec![]), Decision::Stop);
        assert_eq!(decide(code, &RestartPolicy::Always, &vec![]), Decision::Restart);
    }
}

#[test]
fn restart_if_restarts_on_listed_codes_only() {
    let policy = RestartPolicy::IfCodeIn(vec![1, 2]);
    assert_eq!(decide(1, &policy, &vec![]), Decision::Restart);
    assert_eq!(decide(2, &policy, &vec![]), Decision::Restart);
    assert_eq!(decide(0, &policy, &vec![]), Decision::Stop);
    assert_eq!(decide(3, &policy, &vec![]), Decision::Stop);
}

#[test]
fn restart_if_not_is_the_complement() {
    let policy = RestartPolicy::IfCodeNotIn(vec![1, 2]);
    assert_eq!(decide(1, &policy, &vec![]), Decision::Stop);
    assert_eq!(decide(2, &policy, &vec![]), Decision::Stop);
    assert_eq!(decide(0, &policy, &vec![]), Decision::Restart);
    assert_eq!(decide(3, &policy, &vec![]), Decision::Restart);
}

#[test]
fn default_policy_restarts_on_nonzero_only() {
    assert_eq!(decide(0, &RestartPolicy::Default, &vec![]), Decision::Stop);
    for code in [1, -1, 255, i32::MIN, i32::MAX] {
        assert_eq!(decide(code, &RestartPolicy::Default, &vec![]), Decision::Restart);
    }
}

#[test]
fn empty_code_lists_match_nothing() {
    assert_eq!(decide(5, &RestartPolicy::IfCodeIn(vec![]), &vec![]), Decision::Stop);
    assert_eq!(decide(5, &RestartPolicy::IfCodeNotIn(vec![]), &vec![]), Decision::Restart);
}
