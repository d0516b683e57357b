use harmonic::ActionState;
use harmonic::configure_shell_profile::ChildOutcome;
use harmonic::configure_shell_profile::ConfigureShellProfile;
use harmonic::configure_shell_profile::ConfigureShellProfileError;
use harmonic::configure_shell_profile::nix_profile_block;
use harmonic::configure_shell_profile::profile_targets;
use harmonic::create_or_append_file::CreateOrAppendFile;
use harmonic::create_or_append_file::CreateOrAppendFileError;

fn run_child_ok(composite: &ConfigureShellProfile, index: usize) -> ChildOutcome {
    let mut child = composite.child(index).clone();
    let change = child.execute_decide();
    if change.is_some() {
        child.execute_finish(Ok(())).expect("child execute");
    }
    ChildOutcome { index, outcome: Ok(child) }
}

fn run_child_err(composite: &ConfigureShellProfile, index: usize, message: &str) -> ChildOutcome {
    let mut child = composite.child(index).clone();
    let err = child
        .execute_finish(Err(message.to_string()))
        .expect_err("child failure");
    ChildOutcome { index, outcome: Err(err) }
}

fn revert_child_ok(composite: &ConfigureShellProfile, index: usize) -> ChildOutcome {
    let mut child = composite.child(index).clone();
    let change = child.revert_decide();
    if change.is_some() {
        child.revert_finish(Ok(())).expect("child revert");
    }
    ChildOutcome { index, outcome: Ok(child) }
}

#[test]
fn candidate_targets_are_fixed() {
    let t = profile_targets();
    assert_eq!(
        t,
        vec![
            "/etc/bashrc".to_string(),
            "/etc/profile.d/nix.sh".to_string(),
            "/etc/zshrc".to_string(),
            "/etc/bash.bashrc".to_string(),
            "/etc/zsh/zshrc".to_string(),
        ]
    );
}

#[test]
fn plan_filters_missing_targets() {
    // "/etc/bashrc" and "/etc/zshrc" exist, "/etc/profile.d/nix.sh"
    // and the rest do not: planning keeps exactly the two that exist.
    let c = ConfigureShellProfile::plan(vec![true, false, true, false, false]).expect("plan");
    assert_eq!(c.action_state(), ActionState::Uncompleted);
    assert_eq!(c.len(), 2);
    assert_eq!(c.child(0).path(), "/etc/bashrc");
    assert_eq!(c.child(1).path(), "/etc/zshrc");
    assert_eq!(c.child(0).buf(), &nix_profile_block());
    assert_eq!(c.child(0).mode(), 0o644);
    assert_eq!(c.child(0).action_state(), ActionState::Uncompleted);
}

#[test]
fn plan_with_no_existing_target_is_empty() {
    let c = ConfigureShellProfile::plan(vec![false, false, false, false, false]).expect("plan");
    assert_eq!(c.len(), 0);
}

#[test]
fn execute_appends_block_to_existing_targets() {
    // End to end over the engine's decisions: two existing targets,
    // each child appends the marker block, the composite completes.
    let mut c = ConfigureShellProfile::plan(vec![true, false, true, false, false]).expect("plan");
    assert!(c.begin_execute());
    assert_eq!(c.action_state(), ActionState::InProgress);
    let mut appended: Vec<(String, String)> = Vec::new();
    let mut results = Vec::new();
    for i in 0..c.len() {
        let mut child = c.child(i).clone();
        let change = child.execute_decide().expect("pending child");
        appended.push((change.path, change.buf));
        child.execute_finish(Ok(())).expect("child execute");
        results.push(ChildOutcome { index: i, outcome: Ok(child) });
    }
    c.finish_execute(results).expect("finish");
    assert_eq!(c.action_state(), ActionState::Completed);
    assert_eq!(
        appended,
        vec![
            ("/etc/bashrc".to_string(), nix_profile_block()),
            ("/etc/zshrc".to_string(), nix_profile_block()),
        ]
    );
    assert_eq!(c.child(0).action_state(), ActionState::Completed);
    assert_eq!(c.child(1).action_state(), ActionState::Completed);
}

#[test]
fn execute_preserves_order_under_scrambled_completion() {
    let mut c =
        ConfigureShellProfile::plan(vec![true, true, true, false, false]).expect("plan");
    assert!(c.begin_execute());
    // Results arrive in a completion order unrelated to child order.
    let results = vec![run_child_ok(&c, 2), run_child_ok(&c, 0), run_child_ok(&c, 1)];
    c.finish_execute(results).expect("finish");
    assert_eq!(c.action_state(), ActionState::Completed);
    assert_eq!(c.child(0).path(), "/etc/bashrc");
    assert_eq!(c.child(1).path(), "/etc/profile.d/nix.sh");
    assert_eq!(c.child(2).path(), "/etc/zshrc");
    for i in 0..3 {
        assert_eq!(c.child(i).action_state(), ActionState::Completed);
    }
}

#[test]
fn already_completed_composite_short_circuits() {
    let mut c = ConfigureShellProfile::plan(vec![true, false, false, false, false]).expect("plan");
    assert!(c.begin_execute());
    let results = vec![run_child_ok(&c, 0)];
    c.finish_execute(results).expect("finish");
    assert_eq!(c.action_state(), ActionState::Completed);
    // Idempotent: a second execute round is declined outright.
    assert!(!c.begin_execute());
    assert_eq!(c.action_state(), ActionState::Completed);
    assert!(c.describe_execute().is_empty());
}

#[test]
fn already_uncompleted_composite_declines_revert() {
    let mut c = ConfigureShellProfile::plan(vec![true, false, false, false, false]).expect("plan");
    assert!(!c.begin_revert());
    assert_eq!(c.action_state(), ActionState::Uncompleted);
    assert!(c.describe_revert().is_empty());
}

#[test]
fn single_failure_propagates_exact_child_error() {
    let mut c =
        ConfigureShellProfile::plan(vec![true, true, true, false, false]).expect("plan");
    assert!(c.begin_execute());
    let results = vec![
        run_child_ok(&c, 2),
        run_child_err(&c, 1, "permission denied"),
        run_child_ok(&c, 0),
    ];
    let err = c.finish_execute(results).unwrap_err();
    assert_eq!(
        err,
        ConfigureShellProfileError::CreateOrAppendFile(CreateOrAppendFileError::WriteFile {
            path: "/etc/profile.d/nix.sh".to_string(),
            message: "permission denied".to_string(),
        })
    );
    assert_eq!(c.action_state(), ActionState::InProgress);
}

#[test]
fn multiple_failures_aggregate_in_child_order() {
    let mut c =
        ConfigureShellProfile::plan(vec![true, true, true, false, false]).expect("plan");
    assert!(c.begin_execute());
    // Failures complete in reverse order; the aggregate still lists
    // them in child order.
    let results = vec![
        run_child_err(&c, 2, "read-only filesystem"),
        run_child_ok(&c, 1),
        run_child_err(&c, 0, "permission denied"),
    ];
    let err = c.finish_execute(results).unwrap_err();
    assert_eq!(
        err,
        ConfigureShellProfileError::MultipleCreateOrAppendFile(vec![
            CreateOrAppendFileError::WriteFile {
                path: "/etc/bashrc".to_string(),
                message: "permission denied".to_string(),
            },
            CreateOrAppendFileError::WriteFile {
                path: "/etc/zshrc".to_string(),
                message: "read-only filesystem".to_string(),
            },
        ])
    );
    assert_eq!(c.action_state(), ActionState::InProgress);
}

#[test]
fn partial_failure_is_isolated_and_retry_completes() {
    let mut c =
        ConfigureShellProfile::plan(vec![true, true, true, false, false]).expect("plan");
    assert!(c.begin_execute());
    let results = vec![
        run_child_ok(&c, 0),
        run_child_err(&c, 1, "permission denied"),
        run_child_ok(&c, 2),
    ];
    assert!(c.finish_execute(results).is_err());
    // Successful siblings are completed, the failed child untouched.
    assert_eq!(c.child(0).action_state(), ActionState::Completed);
    assert_eq!(c.child(1).action_state(), ActionState::Uncompleted);
    assert_eq!(c.child(2).action_state(), ActionState::Completed);
    assert_eq!(c.action_state(), ActionState::InProgress);
    // Retry: completed children short-circuit (no redundant side
    // effect), the failed one succeeds this time.
    assert!(c.begin_execute());
    assert!(c.child(0).clone().execute_decide().is_none());
    assert!(c.child(2).clone().execute_decide().is_none());
    let retry = vec![run_child_ok(&c, 1), run_child_ok(&c, 0), run_child_ok(&c, 2)];
    c.finish_execute(retry).expect("retry");
    assert_eq!(c.action_state(), ActionState::Completed);
    for i in 0..3 {
        assert_eq!(c.child(i).action_state(), ActionState::Completed);
    }
}

#[test]
fn revert_returns_children_and_composite_to_uncompleted() {
    let mut c = ConfigureShellProfile::plan(vec![true, false, true, false, false]).expect("plan");
    assert!(c.begin_execute());
    let results = vec![run_child_ok(&c, 0), run_child_ok(&c, 1)];
    c.finish_execute(results).expect("execute");
    assert_eq!(c.action_state(), ActionState::Completed);

    assert!(c.begin_revert());
    assert_eq!(c.action_state(), ActionState::InProgress);
    let results = vec![revert_child_ok(&c, 1), revert_child_ok(&c, 0)];
    c.finish_revert(results).expect("revert");
    assert_eq!(c.action_state(), ActionState::Uncompleted);
    assert_eq!(c.child(0).action_state(), ActionState::Uncompleted);
    assert_eq!(c.child(1).action_state(), ActionState::Uncompleted);
}

#[test]
fn composite_describe() {
    let mut c = ConfigureShellProfile::plan(vec![true, false, false, false, false]).expect("plan");
    let d = c.describe_execute();
    assert_eq!(d.len(), 1);
    assert_eq!(d[0].title, "Configure the shell profiles");
    assert_eq!(d[0].explanation, vec!["Update shell profiles to import Nix".to_string()]);
    // Not yet executed: there is nothing to revert, so no description.
    assert!(c.describe_revert().is_empty());
    assert!(c.begin_execute());
    let results = vec![run_child_ok(&c, 0)];
    c.finish_execute(results).expect("execute");
    let r = c.describe_revert();
    assert_eq!(r.len(), 1);
    assert_eq!(r[0].title, "Unconfigure the shell profiles");
    assert_eq!(
        r[0].explanation,
        vec!["Update shell profiles to no longer import Nix".to_string()]
    );
    // Completed: there is nothing left to execute.
    assert!(c.describe_execute().is_empty());
}

#[test]
fn infrastructure_failure_is_a_distinct_kind() {
    // A crashed spawned unit is reported as the fatal Join kind, never
    // merged into the child-error aggregate.
    let e = ConfigureShellProfileError::Join("task panicked".to_string());
    assert_ne!(
        e,
        ConfigureShellProfileError::CreateOrAppendFile(CreateOrAppendFileError::WriteFile {
            path: "/etc/bashrc".to_string(),
            message: "task panicked".to_string(),
        })
    );
}
