use harmonic::ActionState;
use harmonic::action::Action;
use harmonic::codec::ActionRecord;
use harmonic::codec::action_of_record;
use harmonic::codec::record_of_action;
use harmonic::configure_shell_profile::ChildOutcome;
use harmonic::configure_shell_profile::ConfigureShellProfile;
use harmonic::setup_default_profile::SetupDefaultProfile;

#[test]
fn setup_profile_round_trips() {
    let a: Action = SetupDefaultProfile::plan(vec![
        "nixpkgs".to_string(),
        "stable".to_string(),
    ])
    .expect("plan")
    .into();
    let record = record_of_action(&a);
    let back = action_of_record(&record).expect("decode");
    assert_eq!(a, back);
}

#[test]
fn completed_setup_profile_round_trips() {
    let mut planned = SetupDefaultProfile::plan(vec!["nixpkgs".to_string()]).expect("plan");
    planned.execute_finish(Ok(())).expect("execute");
    let a: Action = planned.into();
    let back = action_of_record(&record_of_action(&a)).expect("decode");
    assert_eq!(a, back);
    assert_eq!(back.action_state(), ActionState::Completed);
}

#[test]
fn composite_round_trips_with_mixed_child_states() {
    let mut c = ConfigureShellProfile::plan(vec![true, true, true, false, false]).expect("plan");
    assert!(c.begin_execute());
    // One child completes, one fails, one completes: the persisted
    // tree must carry exactly these states.
    let mut ok0 = c.child(0).clone();
    ok0.execute_finish(Ok(())).expect("child");
    let mut err1 = c.child(1).clone();
    let e1 = err1.execute_finish(Err("denied".to_string())).unwrap_err();
    let mut ok2 = c.child(2).clone();
    ok2.execute_finish(Ok(())).expect("child");
    let results = vec![
        ChildOutcome { index: 2, outcome: Ok(ok2) },
        ChildOutcome { index: 0, outcome: Ok(ok0) },
        ChildOutcome { index: 1, outcome: Err(e1) },
    ];
    assert!(c.finish_execute(results).is_err());
    assert_eq!(c.action_state(), ActionState::InProgress);

    let a: Action = c.into();
    let back = action_of_record(&record_of_action(&a)).expect("decode");
    assert_eq!(a, back);
    match back {
        Action::ConfigureShellProfile(c2) => {
            assert_eq!(c2.action_state(), ActionState::InProgress);
            assert_eq!(c2.child(0).action_state(), ActionState::Completed);
            assert_eq!(c2.child(1).action_state(), ActionState::Uncompleted);
            assert_eq!(c2.child(2).action_state(), ActionState::Completed);
        },
        other => panic!("unexpected variant {:?}", other),
    }
}

#[test]
fn empty_composite_round_trips() {
    let c = ConfigureShellProfile::plan(vec![false, false, false, false, false]).expect("plan");
    let a: Action = c.into();
    let back = action_of_record(&record_of_action(&a)).expect("decode");
    assert_eq!(a, back);
}

#[test]
fn state_codes_are_stable() {
    let uncompleted: Action = SetupDefaultProfile::plan(vec![]).expect("plan").into();
    match record_of_action(&uncompleted) {
        ActionRecord::SetupDefaultProfile { state_code, .. } => assert_eq!(state_code, 0),
        other => panic!("unexpected record {:?}", other),
    }
    let mut completed = SetupDefaultProfile::plan(vec![]).expect("plan");
    completed.execute_finish(Ok(())).expect("execute");
    let completed: Action = completed.into();
    match record_of_action(&completed) {
        ActionRecord::SetupDefaultProfile { state_code, .. } => assert_eq!(state_code, 2),
        other => panic!("unexpected record {:?}", other),
    }
}

#[test]
fn unknown_state_code_is_rejected() {
    let record = ActionRecord::SetupDefaultProfile { channels: vec![], state_code: 9 };
    assert!(action_of_record(&record).is_none());
    let record = ActionRecord::ConfigureShellProfile { files: vec![], state_code: 3 };
    assert!(action_of_record(&record).is_none());
}

#[test]
fn action_state_dispatches_through_the_union() {
    let a: Action = SetupDefaultProfile::plan(vec![]).expect("plan").into();
    assert_eq!(a.action_state(), ActionState::Uncompleted);
    let c: Action = ConfigureShellProfile::plan(vec![false, false, false, false, false])
        .expect("plan")
        .into();
    assert_eq!(c.action_state(), ActionState::Uncompleted);
}
