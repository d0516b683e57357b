use vstd::prelude::*;

use crate::ActionDescription;
use crate::ActionDescriptionV;
use crate::ActionState;

verus! {

/// Mathematical value of an [`EnvPair`].
#[verifier::ext_equal]
pub struct EnvPairV {
    pub name: Seq<char>,
    pub value: Seq<char>,
}

/// A named environment variable and its value, as handed to a command.
#[derive(Debug, Clone, PartialEq, Eq)]
pub struct EnvPair {
    pub name: String,
    pub value: String,
}

impl View for EnvPair {
    type V = EnvPairV;

    open spec fn view(&self) -> EnvPairV {
        EnvPairV { name: self.name@, value: self.value@ }
    }
}

impl DeepView for EnvPair {
    type V = EnvPairV;

    open spec fn deep_view(&self) -> EnvPairV {
        self.view()
    }
}

/// Mathematical value of a [`CommandSpec`].
#[verifier::ext_equal]
pub struct CommandSpecV {
    pub package: Seq<char>,
    pub program: Seq<char>,
    pub args: Seq<Seq<char>>,
    pub env: Seq<EnvPairV>,
}

/// One external process invocation the engine asks its driver to
/// perform: the binary `program`, relative to the discovered store
/// `package`, with `args` and extra environment entries `env`.
#[derive(Debug, Clone, PartialEq, Eq)]
pub struct CommandSpec {
    pub package: String,
    pub program: String,
    pub args: Vec<String>,
    pub env: Vec<EnvPair>,
}

impl View for CommandSpec {
    type V = CommandSpecV;

    open spec fn view(&self) -> CommandSpecV {
        CommandSpecV {
            package: self.package@,
            program: self.program@,
            args: self.args.deep_view(),
            env: self.env.deep_view(),
        }
    }
}

impl DeepView for CommandSpec {
    type V = CommandSpecV;

    open spec fn deep_view(&self) -> CommandSpecV {
        self.view()
    }
}

/// Mathematical value of an [`ExecStep`].
#[verifier::ext_equal]
pub enum ExecStepV {
    Run(CommandSpecV),
    SetEnvVar(EnvPairV),
    UnsetEnvVar(Seq<char>),
}

/// One unit of outside work an `execute`/`revert` call asks its driver
/// for, in order: run a process, or mutate the process environment.
#[derive(Debug, Clone, PartialEq, Eq)]
pub enum ExecStep {
    Run(CommandSpec),
    SetEnvVar(EnvPair),
    UnsetEnvVar(String),
}

impl View for ExecStep {
    type V = ExecStepV;

    open spec fn view(&self) -> ExecStepV {
        match self {
            ExecStep::Run(c) => ExecStepV::Run(c@),
            ExecStep::SetEnvVar(p) => ExecStepV::SetEnvVar(p@),
            ExecStep::UnsetEnvVar(n) => ExecStepV::UnsetEnvVar(n@),
        }
    }
}

impl DeepView for ExecStep {
    type V = ExecStepV;

    open spec fn deep_view(&self) -> ExecStepV {
        self.view()
    }
}

/// Errors of [`SetupDefaultProfile`]. Discovery failures (a bad glob
/// pattern, a store entry that cannot be read, no matching store entry)
/// are distinct kinds from an external command failure.
#[derive(Debug, Clone, PartialEq, Eq)]
pub enum SetupDefaultProfileError {
    GlobPatternError(String),
    GlobGlobError(String),
    NoNssCacert,
    Command(String),
}

/// Mathematical value of a [`SetupDefaultProfileError`].
#[verifier::ext_equal]
pub enum SetupDefaultProfileErrorV {
    GlobPatternError(Seq<char>),
    GlobGlobError(Seq<char>),
    NoNssCacert,
    Command(Seq<char>),
}

impl View for SetupDefaultProfileError {
    type V = SetupDefaultProfileErrorV;

    open spec fn view(&self) -> SetupDefaultProfileErrorV {
        match self {
            SetupDefaultProfileError::GlobPatternError(m) => {
                SetupDefaultProfileErrorV::GlobPatternError(m@)
            },
            SetupDefaultProfileError::GlobGlobError(m) => {
                SetupDefaultProfileErrorV::GlobGlobError(m@)
            },
            SetupDefaultProfileError::NoNssCacert => SetupDefaultProfileErrorV::NoNssCacert,
            SetupDefaultProfileError::Command(m) => SetupDefaultProfileErrorV::Command(m@),
        }
    }
}

/// Mathematical value of a [`SetupDefaultProfile`].
#[verifier::ext_equal]
pub struct SetupDefaultProfileV {
    pub channels: Seq<Seq<char>>,
    pub state: ActionState,
}

/// Leaf action that installs the discovered Nix and nss-cacert store
/// packages into the default profile, points `NIX_SSL_CERT_FILE` at the
/// installed certificate bundle, and, when channels were configured,
/// updates them.
///
/// Discovery (matching the store globs) and the external invocations
/// are outside work; this type decides them (`execute_decide`,
/// `revert_decide`) and records their outcome (`execute_finish`,
/// `revert_finish`).
#[derive(Debug, Clone, PartialEq, Eq)]
pub struct SetupDefaultProfile {
    channels: Vec<String>,
    action_state: ActionState,
}

impl View for SetupDefaultProfile {
    type V = SetupDefaultProfileV;

    closed spec fn view(&self) -> SetupDefaultProfileV {
        SetupDefaultProfileV { channels: self.channels.deep_view(), state: self.action_state }
    }
}

impl DeepView for SetupDefaultProfile {
    type V = SetupDefaultProfileV;

    open spec fn deep_view(&self) -> SetupDefaultProfileV {
        self.view()
    }
}

pub open spec fn spec_nix_pkg_glob() -> Seq<char> {
    "/nix/store/*-nix-*"@
}

pub open spec fn spec_nss_ca_cert_pkg_glob() -> Seq<char> {
    "/nix/store/*-nss-cacert-*"@
}

pub open spec fn spec_nix_ssl_cert_file_name() -> Seq<char> {
    "NIX_SSL_CERT_FILE"@
}

pub open spec fn spec_nix_ssl_cert_file_value() -> Seq<char> {
    "/nix/var/nix/profiles/default/etc/ssl/certs/ca-bundle.crt"@
}

/// The store glob whose first match is taken as the Nix package.
pub fn nix_pkg_glob() -> (r: &'static str)
    ensures
        r@ == spec_nix_pkg_glob(),
{
    "/nix/store/*-nix-*"
}

/// The store glob whose first match is taken as the nss-cacert package.
pub fn nss_ca_cert_pkg_glob() -> (r: &'static str)
    ensures
        r@ == spec_nss_ca_cert_pkg_glob(),
{
    "/nix/store/*-nss-cacert-*"
}

/// The first readable entry of a glob listing, in listing order.
/// Unreadable entries (`None`) are skipped. When several entries match,
/// the first wins: an accepted, documented policy, not an error.
pub open spec fn spec_first_match(entries: Seq<Option<Seq<char>>>) -> Option<Seq<char>>
    decreases entries.len(),
{
    if entries.len() == 0 {
        None
    } else if entries[0] is Some {
        entries[0]
    } else {
        spec_first_match(entries.drop_first())
    }
}

/// Select the first readable glob match, skipping unreadable entries.
pub fn first_match(entries: &Vec<Option<String>>) -> (r: Option<String>)
    ensures
        r.deep_view() == spec_first_match(entries.deep_view()),
{
    let ghost dv = entries.deep_view();
    proof {
        assert(dv.skip(0) =~= dv);
    }
    let mut i: usize = 0;
    while i < entries.len()
        invariant
            0 <= i <= entries.len(),
            dv == entries.deep_view(),
            dv.len() == entries@.len(),
            spec_first_match(dv) == spec_first_match(dv.skip(i as int)),
        decreases entries.len() - i,
    {
        match &entries[i] {
            Some(path) => {
                proof {
                    assert(dv.skip(i as int)[0] == dv[i as int]);
                }
                return Some(path.clone());
            },
            None => {
                proof {
                    assert(dv.skip(i as int)[0] == dv[i as int]);
                    assert(dv.skip(i as int).drop_first() =~= dv.skip(i as int + 1));
                }
                i += 1;
            },
        }
    }
    proof {
        assert(dv.skip(i as int).len() == 0);
    }
    None
}

/// The sequence of outside steps one `execute` call performs once both
/// store packages are discovered: install the Nix package, install the
/// nss-cacert package, set `NIX_SSL_CERT_FILE`, and, only when the
/// channel list is not empty, update the channels with that same
/// certificate bundle in the command environment.
pub open spec fn spec_execute_steps(
    nix_pkg: Seq<char>,
    nss_ca_cert_pkg: Seq<char>,
    channels: Seq<Seq<char>>,
) -> Seq<ExecStepV> {
    let base = seq![
        ExecStepV::Run(
            CommandSpecV {
                package: nix_pkg,
                program: "bin/nix-env"@,
                args: seq!["-i"@, nix_pkg],
                env: seq![],
            },
        ),
        ExecStepV::Run(
            CommandSpecV {
                package: nix_pkg,
                program: "bin/nix-env"@,
                args: seq!["-i"@, nss_ca_cert_pkg],
                env: seq![],
            },
        ),
        ExecStepV::SetEnvVar(
            EnvPairV {
                name: spec_nix_ssl_cert_file_name(),
                value: spec_nix_ssl_cert_file_value(),
            },
        ),
    ];
    if channels.len() == 0 {
        base
    } else {
        base.push(
            ExecStepV::Run(
                CommandSpecV {
                    package: nix_pkg,
                    program: "bin/nix-channel"@,
                    args: seq!["--update"@] + channels,
                    env: seq![
                        EnvPairV {
                            name: spec_nix_ssl_cert_file_name(),
                            value: spec_nix_ssl_cert_file_value(),
                        },
                    ],
                },
            ),
        )
    }
}

/// The whole decision one `execute` call makes, as a function of the
/// action value and the two glob listings: the idempotent
/// short-circuit, discovery (first match wins), and the step sequence.
pub open spec fn spec_execute_decide(
    s: SetupDefaultProfileV,
    nix_glob: Result<Seq<Option<Seq<char>>>, Seq<char>>,
    nss_glob: Result<Seq<Option<Seq<char>>>, Seq<char>>,
) -> Result<Seq<ExecStepV>, SetupDefaultProfileErrorV> {
    if s.state == ActionState::Completed {
        Ok(seq![])
    } else {
        match nix_glob {
            Err(m) => Err(SetupDefaultProfileErrorV::GlobPatternError(m)),
            Ok(nix_entries) => match spec_first_match(nix_entries) {
                None => Err(SetupDefaultProfileErrorV::NoNssCacert),
                Some(nix_pkg) => match nss_glob {
                    Err(m) => Err(SetupDefaultProfileErrorV::GlobPatternError(m)),
                    Ok(nss_entries) => match spec_first_match(nss_entries) {
                        None => Err(SetupDefaultProfileErrorV::NoNssCacert),
                        Some(nss_pkg) => Ok(spec_execute_steps(nix_pkg, nss_pkg, s.channels)),
                    },
                },
            },
        }
    }
}

/// Value of a glob outcome: the listing, or the pattern error message.
pub open spec fn view_glob_outcome(g: Result<Vec<Option<String>>, String>) -> Result<
    Seq<Option<Seq<char>>>,
    Seq<char>,
> {
    match g {
        Ok(entries) => Ok(entries.deep_view()),
        Err(m) => Err(m@),
    }
}

/// Value of an `execute_decide` result.
pub open spec fn view_steps_outcome(r: Result<Vec<ExecStep>, SetupDefaultProfileError>) -> Result<
    Seq<ExecStepV>,
    SetupDefaultProfileErrorV,
> {
    match r {
        Ok(steps) => Ok(steps.deep_view()),
        Err(e) => Err(e@),
    }
}

/// The certificate bundle environment entry the execute steps set.
fn cert_env_pair() -> (r: EnvPair)
    ensures
        r@ == (EnvPairV {
            name: spec_nix_ssl_cert_file_name(),
            value: spec_nix_ssl_cert_file_value(),
        }),
{
    EnvPair {
        name: "NIX_SSL_CERT_FILE".to_owned(),
        value: "/nix/var/nix/profiles/default/etc/ssl/certs/ca-bundle.crt".to_owned(),
    }
}

/// Idempotent execute: an already `Completed` action decides no step
/// and reports success, whatever the glob listings hold; re-running
/// it changes neither host state nor the action.
pub proof fn lemma_execute_idempotent(
    s: SetupDefaultProfileV,
    nix_glob: Result<Seq<Option<Seq<char>>>, Seq<char>>,
    nss_glob: Result<Seq<Option<Seq<char>>>, Seq<char>>,
)
    requires
        s.state == ActionState::Completed,
    ensures
        (spec_execute_decide(s, nix_glob, nss_glob) matches Ok(steps) && steps.len() == 0),
{
}

impl SetupDefaultProfile {
    /// Plan the action. Planning is pure: it only records the channels.
    pub fn plan(channels: Vec<String>) -> (r: Result<Self, SetupDefaultProfileError>)
        ensures
            (r matches Ok(s) && s@ == (SetupDefaultProfileV {
                channels: channels.deep_view(),
                state: ActionState::Uncompleted,
            })),
    {
        Ok(Self { channels, action_state: ActionState::Uncompleted })
    }

    pub fn describe_execute(&self) -> (r: Vec<ActionDescription>)
        ensures
            self@.state == ActionState::Completed ==> r@.len() == 0,
            self@.state != ActionState::Completed ==> r.deep_view() == seq![
                (ActionDescriptionV {
                    title: "Setup the default Nix profile"@,
                    explanation: seq!["Install Nix and nss-cacert into the default profile"@],
                }),
            ],
    {
        if self.action_state.is_completed() {
            Vec::new()
        } else {
            let mut explanation: Vec<String> = Vec::new();
            explanation.push("Install Nix and nss-cacert into the default profile".to_owned());
            let mut r: Vec<ActionDescription> = Vec::new();
            r.push(ActionDescription::new("Setup the default Nix profile".to_owned(), explanation));
            proof {
                assert(r.deep_view() =~~= seq![
                    (ActionDescriptionV {
                        title: "Setup the default Nix profile"@,
                        explanation: seq![
                            "Install Nix and nss-cacert into the default profile"@,
                        ],
                    }),
                ]);
            }
            r
        }
    }

    pub fn describe_revert(&self) -> (r: Vec<ActionDescription>)
        ensures
            self@.state == ActionState::Uncompleted ==> r@.len() == 0,
            self@.state != ActionState::Uncompleted ==> r.deep_view() == seq![
                (ActionDescriptionV {
                    title: "Unset the default Nix profile"@,
                    explanation: seq!["Unset the certificate bundle environment variable"@],
                }),
            ],
    {
        if self.action_state.is_uncompleted() {
            Vec::new()
        } else {
            let mut explanation: Vec<String> = Vec::new();
            explanation.push("Unset the certificate bundle environment variable".to_owned());
            let mut r: Vec<ActionDescription> = Vec::new();
            r.push(ActionDescription::new("Unset the default Nix profile".to_owned(), explanation));
            proof {
                assert(r.deep_view() =~~= seq![
                    (ActionDescriptionV {
                        title: "Unset the default Nix profile"@,
                        explanation: seq![
                            "Unset the certificate bundle environment variable"@,
                        ],
                    }),
                ]);
            }
            r
        }
    }

    /// Decide everything one `execute` call does, from the two glob
    /// listings the driver gathered for [`nix_pkg_glob`] and
    /// [`nss_ca_cert_pkg_glob`]. Already `Completed` means no steps
    /// (idempotent short-circuit). Discovery failure yields a discovery
    /// error and no step: no external process is invoked.
    pub fn execute_decide(
        &self,
        nix_glob: Result<Vec<Option<String>>, String>,
        nss_glob: Result<Vec<Option<String>>, String>,
    ) -> (r: Result<Vec<ExecStep>, SetupDefaultProfileError>)
        ensures
            view_steps_outcome(r) == spec_execute_decide(
                self@,
                view_glob_outcome(nix_glob),
                view_glob_outcome(nss_glob),
            ),
    {
        if self.action_state.is_completed() {
            let steps: Vec<ExecStep> = Vec::new();
            proof {
                assert(steps.deep_view() =~= Seq::<ExecStepV>::empty());
            }
            return Ok(steps);
        }
        let nix_entries = match nix_glob {
            Ok(entries) => entries,
            Err(m) => {
                return Err(SetupDefaultProfileError::GlobPatternError(m));
            },
        };
        let nix_pkg = match first_match(&nix_entries) {
            Some(p) => p,
            None => {
                return Err(SetupDefaultProfileError::NoNssCacert);
            },
        };
        let nss_entries = match nss_glob {
            Ok(entries) => entries,
            Err(m) => {
                return Err(SetupDefaultProfileError::GlobPatternError(m));
            },
        };
        let nss_ca_cert_pkg = match first_match(&nss_entries) {
            Some(p) => p,
            None => {
                return Err(SetupDefaultProfileError::NoNssCacert);
            },
        };
        Ok(self.build_execute_steps(nix_pkg, nss_ca_cert_pkg))
    }

    /// Build the step sequence of [`spec_execute_steps`].
    fn build_execute_steps(&self, nix_pkg: String, nss_ca_cert_pkg: String) -> (r: Vec<ExecStep>)
        ensures
            r.deep_view() == spec_execute_steps(nix_pkg@, nss_ca_cert_pkg@, self@.channels),
    {
        let mut steps: Vec<ExecStep> = Vec::new();
        let mut install_nix_args: Vec<String> = Vec::new();
        install_nix_args.push("-i".to_owned());
        install_nix_args.push(nix_pkg.clone());
        steps.push(
            ExecStep::Run(
                CommandSpec {
                    package: nix_pkg.clone(),
                    program: "bin/nix-env".to_owned(),
                    args: install_nix_args,
                    env: Vec::new(),
                },
            ),
        );
        let mut install_nss_args: Vec<String> = Vec::new();
        install_nss_args.push("-i".to_owned());
        install_nss_args.push(nss_ca_cert_pkg.clone());
        steps.push(
            ExecStep::Run(
                CommandSpec {
                    package: nix_pkg.clone(),
                    program: "bin/nix-env".to_owned(),
                    args: install_nss_args,
                    env: Vec::new(),
                },
            ),
        );
        steps.push(ExecStep::SetEnvVar(cert_env_pair()));
        if self.channels.len() > 0 {
            let mut update_args: Vec<String> = Vec::new();
            update_args.push("--update".to_owned());
            let mut i: usize = 0;
            while i < self.channels.len()
                invariant
                    0 <= i <= self.channels@.len(),
                    update_args.deep_view() =~= seq!["--update"@] + self@.channels.take(i as int),
                decreases self.channels@.len() - i,
            {
                let ghost before = update_args.deep_view();
                update_args.push(self.channels[i].clone());
                proof {
                    assert(update_args.deep_view() =~= before.push(self@.channels[i as int]));
                    assert(before.push(self@.channels[i as int]) =~= seq!["--update"@]
                        + self@.channels.take(i as int + 1));
                }
                i += 1;
            }
            proof {
                assert(self@.channels.take(i as int) =~= self@.channels);
            }
            let mut update_env: Vec<EnvPair> = Vec::new();
            update_env.push(cert_env_pair());
            steps.push(
                ExecStep::Run(
                    CommandSpec {
                        package: nix_pkg,
                        program: "bin/nix-channel".to_owned(),
                        args: update_args,
                        env: update_env,
                    },
                ),
            );
        }
        proof {
            assert(steps.deep_view() =~~= spec_execute_steps(
                nix_pkg@,
                nss_ca_cert_pkg@,
                self@.channels,
            ));
        }
        steps
    }

    /// Record the outcome the driver reports after performing the steps
    /// of `execute_decide` in order, stopping at the first failure.
    /// Success completes the action; failure leaves it unchanged so a
    /// retry is safe.
    pub fn execute_finish(&mut self, outcome: Result<(), String>) -> (r: Result<
        (),
        SetupDefaultProfileError,
    >)
        ensures
            final(self)@.channels == old(self)@.channels,
            outcome is Ok ==> r is Ok && final(self)@.state == ActionState::Completed,
            (outcome matches Err(m) ==> final(self)@.state == old(self)@.state && (
            r matches Err(e) && e@ == SetupDefaultProfileErrorV::Command(m@))),
    {
        match outcome {
            Ok(()) => {
                self.action_state = ActionState::Completed;
                Ok(())
            },
            Err(message) => Err(SetupDefaultProfileError::Command(message)),
        }
    }

    /// Decide everything one `revert` call does. Reverting this action
    /// only unsets `NIX_SSL_CERT_FILE`: the installed packages stay in
    /// place, a documented limitation of this layer. Already
    /// `Uncompleted` means no steps (idempotent short-circuit).
    pub fn revert_decide(&self) -> (r: Vec<ExecStep>)
        ensures
            self@.state == ActionState::Uncompleted ==> r@.len() == 0,
            self@.state != ActionState::Uncompleted ==> r.deep_view() == seq![
                ExecStepV::UnsetEnvVar(spec_nix_ssl_cert_file_name()),
            ],
    {
        if self.action_state.is_uncompleted() {
            Vec::new()
        } else {
            let mut r: Vec<ExecStep> = Vec::new();
            r.push(ExecStep::UnsetEnvVar("NIX_SSL_CERT_FILE".to_owned()));
            proof {
                assert(r.deep_view() =~~= seq![
                    ExecStepV::UnsetEnvVar(spec_nix_ssl_cert_file_name()),
                ]);
            }
            r
        }
    }

    /// Record that the driver performed the revert step. Unsetting an
    /// environment variable cannot fail, so reverting always succeeds
    /// and returns the action to `Uncompleted`.
    pub fn revert_finish(&mut self) -> (r: Result<(), SetupDefaultProfileError>)
        ensures
            final(self)@.channels == old(self)@.channels,
            r is Ok,
            final(self)@.state == ActionState::Uncompleted,
    {
        self.action_state = ActionState::Uncompleted;
        Ok(())
    }

    /// Rebuild the action as a persisted plan recorded it, including
    /// its completion state; used when resuming a stored plan.
    pub fn restore(channels: Vec<String>, state: ActionState) -> (r: Self)
        ensures
            r@ == (SetupDefaultProfileV { channels: channels.deep_view(), state: state }),
    {
        Self { channels, action_state: state }
    }

    pub fn action_state(&self) -> (r: ActionState)
        ensures
            r == self@.state,
    {
        self.action_state
    }

    pub fn channels(&self) -> (r: &Vec<String>)
        ensures
            r.deep_view() == self@.channels,
    {
        &self.channels
    }
}

} // verus!
