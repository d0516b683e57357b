use harmonic::ActionState;
use harmonic::create_or_append_file::CreateOrAppendFile;
use harmonic::create_or_append_file::CreateOrAppendFileError;
use harmonic::setup_default_profile::ExecStep;
use harmonic::setup_default_profile::SetupDefaultProfile;
use harmonic::setup_default_profile::SetupDefaultProfileError;
use harmonic::setup_default_profile::first_match;
use harmonic::setup_default_profile::nix_pkg_glob;
use harmonic::setup_default_profile::nss_ca_cert_pkg_glob;

#[test]
fn leaf_plan_starts_uncompleted() {
    let f = CreateOrAppendFile::plan("/etc/bashrc".to_string(), 0o644, "block".to_string())
        .expect("plan");
    assert_eq!(f.action_state(), ActionState::Uncompleted);
    assert_eq!(f.path(), "/etc/bashrc");
    assert_eq!(f.buf(), "block");
    assert_eq!(f.mode(), 0o644);
}

#[test]
fn leaf_execute_idempotent() {
    let mut f = CreateOrAppendFile::plan("/etc/bashrc".to_string(), 0o644, "block".to_string())
        .expect("plan");
    assert!(f.execute_decide().is_some());
    f.execute_finish(Ok(())).expect("finish");
    assert_eq!(f.action_state(), ActionState::Completed);
    // Already completed: executing again decides no host mutation.
    assert!(f.execute_decide().is_none());
    assert!(f.describe_execute().is_empty());
    f.execute_finish(Ok(())).expect("finish again");
    assert_eq!(f.action_state(), ActionState::Completed);
}

#[test]
fn leaf_revert_idempotent() {
    let mut f = CreateOrAppendFile::plan("/etc/zshrc".to_string(), 0o644, "block".to_string())
        .expect("plan");
    // Already uncompleted: reverting decides no host mutation.
    assert!(f.revert_decide().is_none());
    assert!(f.describe_revert().is_empty());
    f.revert_finish(Ok(())).expect("revert");
    assert_eq!(f.action_state(), ActionState::Uncompleted);
}

#[test]
fn leaf_execute_failure_keeps_state() {
    let mut f = CreateOrAppendFile::plan("/etc/bashrc".to_string(), 0o644, "block".to_string())
        .expect("plan");
    let err = f.execute_finish(Err("disk full".to_string())).unwrap_err();
    assert_eq!(f.action_state(), ActionState::Uncompleted);
    assert_eq!(
        err,
        CreateOrAppendFileError::WriteFile {
            path: "/etc/bashrc".to_string(),
            message: "disk full".to_string(),
        }
    );
}

#[test]
fn leaf_execute_then_revert_round() {
    let mut f = CreateOrAppendFile::plan("/etc/bashrc".to_string(), 0o644, "block".to_string())
        .expect("plan");
    f.execute_finish(Ok(())).expect("execute");
    assert_eq!(f.action_state(), ActionState::Completed);
    let change = f.revert_decide().expect("revert change");
    assert_eq!(change.path, "/etc/bashrc");
    assert_eq!(change.buf, "block");
    f.revert_finish(Ok(())).expect("revert");
    assert_eq!(f.action_state(), ActionState::Uncompleted);
}

#[test]
fn glob_patterns_are_fixed() {
    assert_eq!(nix_pkg_glob(), "/nix/store/*-nix-*");
    assert_eq!(nss_ca_cert_pkg_glob(), "/nix/store/*-nss-cacert-*");
}

#[test]
fn first_match_takes_first_readable() {
    let entries = vec![
        None,
        Some("/nix/store/aaa-nix-2.5".to_string()),
        Some("/nix/store/bbb-nix-2.6".to_string()),
    ];
    assert_eq!(first_match(&entries), Some("/nix/store/aaa-nix-2.5".to_string()));
    let empty: Vec<Option<String>> = Vec::new();
    assert_eq!(first_match(&empty), None);
    let unreadable = vec![None, None];
    assert_eq!(first_match(&unreadable), None);
}

#[test]
fn setup_profile_execute_idempotent() {
    let mut a = SetupDefaultProfile::plan(vec!["nixpkgs".to_string()]).expect("plan");
    assert_eq!(a.action_state(), ActionState::Uncompleted);
    a.execute_finish(Ok(())).expect("finish");
    assert_eq!(a.action_state(), ActionState::Completed);
    // Already completed: no steps are decided, whatever the globs hold.
    let steps = a
        .execute_decide(Ok(vec![]), Ok(vec![]))
        .expect("idempotent short-circuit");
    assert!(steps.is_empty());
    assert!(a.describe_execute().is_empty());
}

#[test]
fn setup_profile_revert_idempotent() {
    let mut a = SetupDefaultProfile::plan(vec![]).expect("plan");
    // Already uncompleted: no steps are decided.
    assert!(a.revert_decide().is_empty());
    assert!(a.describe_revert().is_empty());
    a.revert_finish().expect("revert");
    assert_eq!(a.action_state(), ActionState::Uncompleted);
}

#[test]
fn setup_profile_execute_steps_without_channels() {
    let a = SetupDefaultProfile::plan(vec![]).expect("plan");
    let steps = a
        .execute_decide(
            Ok(vec![Some("/nix/store/aaa-nix-2.5".to_string())]),
            Ok(vec![Some("/nix/store/bbb-nss-cacert-3.7".to_string())]),
        )
        .expect("decide");
    assert_eq!(steps.len(), 3);
    match &steps[0] {
        ExecStep::Run(c) => {
            assert_eq!(c.package, "/nix/store/aaa-nix-2.5");
            assert_eq!(c.program, "bin/nix-env");
            assert_eq!(c.args, vec!["-i".to_string(), "/nix/store/aaa-nix-2.5".to_string()]);
            assert!(c.env.is_empty());
        },
        other => panic!("unexpected step {:?}", other),
    }
    match &steps[1] {
        ExecStep::Run(c) => {
            assert_eq!(c.package, "/nix/store/aaa-nix-2.5");
            assert_eq!(c.program, "bin/nix-env");
            assert_eq!(
                c.args,
                vec!["-i".to_string(), "/nix/store/bbb-nss-cacert-3.7".to_string()]
            );
        },
        other => panic!("unexpected step {:?}", other),
    }
    match &steps[2] {
        ExecStep::SetEnvVar(p) => {
            assert_eq!(p.name, "NIX_SSL_CERT_FILE");
            assert_eq!(
                p.value,
                "/nix/var/nix/profiles/default/etc/ssl/certs/ca-bundle.crt"
            );
        },
        other => panic!("unexpected step {:?}", other),
    }
}

#[test]
fn setup_profile_execute_steps_with_channels() {
    let a = SetupDefaultProfile::plan(vec!["nixpkgs".to_string(), "stable".to_string()])
        .expect("plan");
    let steps = a
        .execute_decide(
            Ok(vec![None, Some("/nix/store/aaa-nix-2.5".to_string())]),
            Ok(vec![Some("/nix/store/bbb-nss-cacert-3.7".to_string())]),
        )
        .expect("decide");
    assert_eq!(steps.len(), 4);
    match &steps[3] {
        ExecStep::Run(c) => {
            assert_eq!(c.package, "/nix/store/aaa-nix-2.5");
            assert_eq!(c.program, "bin/nix-channel");
            assert_eq!(
                c.args,
                vec!["--update".to_string(), "nixpkgs".to_string(), "stable".to_string()]
            );
            assert_eq!(c.env.len(), 1);
            assert_eq!(c.env[0].name, "NIX_SSL_CERT_FILE");
        },
        other => panic!("unexpected step {:?}", other),
    }
}

#[test]
fn setup_profile_discovery_zero_matches_is_discovery_error() {
    let a = SetupDefaultProfile::plan(vec![]).expect("plan");
    // A glob that matched nothing must yield the discovery error kind
    // and decide no step, so no external process is invoked.
    let r = a.execute_decide(
        Ok(vec![]),
        Ok(vec![Some("/nix/store/bbb-nss-cacert-3.7".to_string())]),
    );
    assert_eq!(r.unwrap_err(), SetupDefaultProfileError::NoNssCacert);
    // Same for the nss-cacert package.
    let r2 = a.execute_decide(
        Ok(vec![Some("/nix/store/aaa-nix-2.5".to_string())]),
        Ok(vec![None]),
    );
    assert_eq!(r2.unwrap_err(), SetupDefaultProfileError::NoNssCacert);
}

#[test]
fn setup_profile_pattern_error_is_reported() {
    let a = SetupDefaultProfile::plan(vec![]).expect("plan");
    let r = a.execute_decide(Err("bad pattern".to_string()), Ok(vec![]));
    assert_eq!(
        r.unwrap_err(),
        SetupDefaultProfileError::GlobPatternError("bad pattern".to_string())
    );
}

#[test]
fn setup_profile_execute_failure_keeps_state() {
    let mut a = SetupDefaultProfile::plan(vec![]).expect("plan");
    let err = a.execute_finish(Err("exit status 1".to_string())).unwrap_err();
    assert_eq!(err, SetupDefaultProfileError::Command("exit status 1".to_string()));
    assert_eq!(a.action_state(), ActionState::Uncompleted);
}

#[test]
fn setup_profile_revert_unsets_certificate_variable() {
    let mut a = SetupDefaultProfile::plan(vec![]).expect("plan");
    a.execute_finish(Ok(())).expect("execute");
    assert_eq!(a.action_state(), ActionState::Completed);
    let steps = a.revert_decide();
    assert_eq!(steps.len(), 1);
    match &steps[0] {
        ExecStep::UnsetEnvVar(name) => assert_eq!(name, "NIX_SSL_CERT_FILE"),
        other => panic!("unexpected step {:?}", other),
    }
    a.revert_finish().expect("revert");
    assert_eq!(a.action_state(), ActionState::Uncompleted);
}

#[test]
fn setup_profile_describe() {
    let mut a = SetupDefaultProfile::plan(vec![]).expect("plan");
    let d = a.describe_execute();
    assert_eq!(d.len(), 1);
    assert_eq!(d[0].title, "Setup the default Nix profile");
    assert_eq!(d[0].explanation.len(), 1);
    // Not yet executed: there is nothing to revert, so no description.
    assert!(a.describe_revert().is_empty());
    a.execute_finish(Ok(())).expect("execute");
    let r = a.describe_revert();
    assert_eq!(r.len(), 1);
    assert_eq!(r[0].title, "Unset the default Nix profile");
}
