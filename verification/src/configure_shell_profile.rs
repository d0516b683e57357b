use vstd::prelude::*;

use crate::ActionDescription;
use crate::ActionDescriptionV;
use crate::ActionState;
use crate::create_or_append_file::CreateOrAppendFile;
use crate::create_or_append_file::CreateOrAppendFileError;
use crate::create_or_append_file::CreateOrAppendFileErrorV;
use crate::create_or_append_file::CreateOrAppendFileV;

verus! {

/// Errors of [`ConfigureShellProfile`]: one child failed (the exact
/// child error is propagated), several children failed (all of them,
/// in child order), or the concurrency substrate itself failed to run
/// a spawned unit (fatal, never merged into the aggregate).
#[derive(Debug, Clone, PartialEq, Eq)]
pub enum ConfigureShellProfileError {
    CreateOrAppendFile(CreateOrAppendFileError),
    MultipleCreateOrAppendFile(Vec<CreateOrAppendFileError>),
    Join(String),
}

/// Mathematical value of a [`ConfigureShellProfileError`].
#[verifier::ext_equal]
pub enum ConfigureShellProfileErrorV {
    CreateOrAppendFile(CreateOrAppendFileErrorV),
    MultipleCreateOrAppendFile(Seq<CreateOrAppendFileErrorV>),
    Join(Seq<char>),
}

impl View for ConfigureShellProfileError {
    type V = ConfigureShellProfileErrorV;

    open spec fn view(&self) -> ConfigureShellProfileErrorV {
        match self {
            ConfigureShellProfileError::CreateOrAppendFile(e) => {
                ConfigureShellProfileErrorV::CreateOrAppendFile(e@)
            },
            ConfigureShellProfileError::MultipleCreateOrAppendFile(es) => {
                ConfigureShellProfileErrorV::MultipleCreateOrAppendFile(es.deep_view())
            },
            ConfigureShellProfileError::Join(m) => ConfigureShellProfileErrorV::Join(m@),
        }
    }
}

/// Mathematical value of a completed child unit: the original index of
/// the child it ran, and what the child's own operation reported.
#[verifier::ext_equal]
pub struct ChildOutcomeV {
    pub index: int,
    pub outcome: Result<CreateOrAppendFileV, CreateOrAppendFileErrorV>,
}

/// What one concurrent unit of a fan-out hands back: the original
/// index of the child it ran, and either the child in its new state or
/// the error the child reported. Completion order is arbitrary; the
/// index re-associates the result with its place in the child
/// sequence.
#[derive(Debug, PartialEq, Eq)]
pub struct ChildOutcome {
    pub index: usize,
    pub outcome: Result<CreateOrAppendFile, CreateOrAppendFileError>,
}

/// Value of one child operation result.
pub open spec fn outcome_view(r: Result<CreateOrAppendFile, CreateOrAppendFileError>) -> Result<
    CreateOrAppendFileV,
    CreateOrAppendFileErrorV,
> {
    match r {
        Result::Ok(c) => Result::Ok(c@),
        Result::Err(e) => Result::Err(e@),
    }
}

impl View for ChildOutcome {
    type V = ChildOutcomeV;

    open spec fn view(&self) -> ChildOutcomeV {
        ChildOutcomeV { index: self.index as int, outcome: outcome_view(self.outcome) }
    }
}

impl DeepView for ChildOutcome {
    type V = ChildOutcomeV;

    open spec fn deep_view(&self) -> ChildOutcomeV {
        self.view()
    }
}

/// Some result in the set is tagged with child index `i`.
pub open spec fn covers(rs: Seq<ChildOutcomeV>, i: int) -> bool {
    exists|j: int| 0 <= j < rs.len() && (#[trigger] rs[j]).index == i
}

/// A well-formed fan-out result set for `n` children: one outcome per
/// child, each tagged with a distinct original index below `n`.
pub open spec fn outcomes_valid(n: int, rs: Seq<ChildOutcomeV>) -> bool {
    &&& rs.len() == n
    &&& (forall|j: int| 0 <= j < rs.len() ==> 0 <= (#[trigger] rs[j]).index < n)
    &&& (forall|j: int, k: int|
        0 <= j < rs.len() && 0 <= k < rs.len() && j != k ==> (#[trigger] rs[j]).index != (
        #[trigger] rs[k]).index)
    &&& (forall|i: int| 0 <= i < n ==> #[trigger] covers(rs, i))
}

/// The outcome reported for the child at original index `i`,
/// independent of where in the result set it arrived.
pub open spec fn outcome_of(rs: Seq<ChildOutcomeV>, i: int) -> Result<
    CreateOrAppendFileV,
    CreateOrAppendFileErrorV,
> {
    rs[choose|j: int| 0 <= j < rs.len() && rs[j].index == i].outcome
}

/// A child after reconciliation: its reported new state on success,
/// its pre-call state on failure.
pub open spec fn child_after(
    c: CreateOrAppendFileV,
    oc: Result<CreateOrAppendFileV, CreateOrAppendFileErrorV>,
) -> CreateOrAppendFileV {
    match oc {
        Result::Ok(c2) => c2,
        Result::Err(_) => c,
    }
}

/// The whole child sequence after reconciliation. Defined per original
/// index, so the result does not depend on completion order.
pub open spec fn children_after(cs: Seq<CreateOrAppendFileV>, rs: Seq<ChildOutcomeV>) -> Seq<
    CreateOrAppendFileV,
> {
    Seq::new(cs.len(), |i: int| child_after(cs[i], outcome_of(rs, i)))
}

/// The child errors of the result set, ordered by original child
/// index: the order of the input sequence, not completion order.
pub open spec fn errors_range(rs: Seq<ChildOutcomeV>, from: int, to: int) -> Seq<
    CreateOrAppendFileErrorV,
>
    decreases to - from,
{
    if from >= to {
        seq![]
    } else {
        (match outcome_of(rs, from) {
            Result::Ok(_) => seq![],
            Result::Err(e) => seq![e],
        }) + errors_range(rs, from + 1, to)
    }
}

/// Value of one reconciliation slot.
spec fn slot_view(s: Option<Result<CreateOrAppendFile, CreateOrAppendFileError>>) -> Option<
    Result<CreateOrAppendFileV, CreateOrAppendFileErrorV>,
> {
    match s {
        Option::Some(oc) => Option::Some(outcome_view(oc)),
        Option::None => Option::None,
    }
}

/// What a reconciliation slot for child `i` holds while the results at
/// positions `[m, rs.len())` have been sorted in: the outcome tagged
/// `i` when one of them carries it, and nothing before that.
spec fn slot_matches(
    sv: Option<Result<CreateOrAppendFileV, CreateOrAppendFileErrorV>>,
    rs: Seq<ChildOutcomeV>,
    m: int,
    i: int,
) -> bool {
    &&& (forall|j: int|
        m <= j < rs.len() && (#[trigger] rs[j]).index == i ==> sv == Some(rs[j].outcome))
    &&& (sv is Some ==> exists|j: int| m <= j < rs.len() && (#[trigger] rs[j]).index == i)
}

/// Mathematical value of a [`ConfigureShellProfile`].
#[verifier::ext_equal]
pub struct ConfigureShellProfileV {
    pub files: Seq<CreateOrAppendFileV>,
    pub state: ActionState,
}

/// Composite action that owns one [`CreateOrAppendFile`] child per
/// existing shell profile file and applies `execute`/`revert` to all
/// of them with concurrent fan-out and deterministic, index-preserving
/// reconciliation.
///
/// The driver spawns one unit per child, each on its own moved copy of
/// the child, and hands every completion back as a [`ChildOutcome`];
/// `finish_execute`/`finish_revert` write successful children back at
/// their original index, aggregate failures, and finalize the state.
#[derive(Debug, Clone, PartialEq, Eq)]
pub struct ConfigureShellProfile {
    create_or_append_files: Vec<CreateOrAppendFile>,
    action_state: ActionState,
}

impl View for ConfigureShellProfile {
    type V = ConfigureShellProfileV;

    closed spec fn view(&self) -> ConfigureShellProfileV {
        ConfigureShellProfileV {
            files: self.create_or_append_files.deep_view(),
            state: self.action_state,
        }
    }
}

impl DeepView for ConfigureShellProfile {
    type V = ConfigureShellProfileV;

    open spec fn deep_view(&self) -> ConfigureShellProfileV {
        self.view()
    }
}

pub open spec fn spec_profile_targets() -> Seq<Seq<char>> {
    seq![
        "/etc/bashrc"@,
        "/etc/profile.d/nix.sh"@,
        "/etc/zshrc"@,
        "/etc/bash.bashrc"@,
        "/etc/zsh/zshrc"@,
    ]
}

/// The candidate shell profile files. Planning keeps exactly those
/// that exist on the host.
pub fn profile_targets() -> (r: Vec<String>)
    ensures
        r.deep_view() == spec_profile_targets(),
{
    let mut r: Vec<String> = Vec::new();
    r.push("/etc/bashrc".to_owned());
    r.push("/etc/profile.d/nix.sh".to_owned());
    r.push("/etc/zshrc".to_owned());
    r.push("/etc/bash.bashrc".to_owned());
    r.push("/etc/zsh/zshrc".to_owned());
    proof {
        assert(r.deep_view() =~= spec_profile_targets());
    }
    r
}

pub open spec fn spec_nix_profile_block() -> Seq<char> {
    "\n# Nix\nif [ -e '/nix/var/nix/profiles/default/etc/profile.d/nix-daemon.sh' ]; then\n. '/nix/var/nix/profiles/default/etc/profile.d/nix-daemon.sh'\nfi\n# End Nix\n"@
}

/// The marker block appended to each existing profile file: it sources
/// the default profile's daemon script when that script exists.
pub fn nix_profile_block() -> (r: String)
    ensures
        r@ == spec_nix_profile_block(),
{
    "\n# Nix\nif [ -e '/nix/var/nix/profiles/default/etc/profile.d/nix-daemon.sh' ]; then\n. '/nix/var/nix/profiles/default/etc/profile.d/nix-daemon.sh'\nfi\n# End Nix\n".to_owned()
}

pub open spec fn spec_planned_file(i: int) -> CreateOrAppendFileV {
    CreateOrAppendFileV {
        path: spec_profile_targets()[i],
        mode: 0o644,
        buf: spec_nix_profile_block(),
        state: ActionState::Uncompleted,
    }
}

/// The children planning produces from the existence of each candidate
/// target, in target order: targets that do not exist are omitted, not
/// treated as errors.
pub open spec fn spec_planned_files_upto(target_exists: Seq<bool>, n: int) -> Seq<
    CreateOrAppendFileV,
>
    decreases n,
{
    if n <= 0 {
        seq![]
    } else {
        spec_planned_files_upto(target_exists, n - 1) + (if target_exists[n - 1] {
            seq![spec_planned_file(n - 1)]
        } else {
            seq![]
        })
    }
}

pub open spec fn spec_planned_files(target_exists: Seq<bool>) -> Seq<CreateOrAppendFileV> {
    spec_planned_files_upto(target_exists, target_exists.len() as int)
}

impl ConfigureShellProfile {
    /// Plan the composite from the readiness of each candidate target
    /// of [`profile_targets`]: `target_exists[i]` says whether target
    /// `i` exists on the host. Planning filters, it never fails.
    pub fn plan(target_exists: Vec<bool>) -> (r: Result<Self, ConfigureShellProfileError>)
        requires
            target_exists@.len() == spec_profile_targets().len(),
        ensures
            (r matches Ok(c) && c@ == (ConfigureShellProfileV {
                files: spec_planned_files(target_exists@),
                state: ActionState::Uncompleted,
            })),
    {
        let targets = profile_targets();
        let mut create_or_append_files: Vec<CreateOrAppendFile> = Vec::new();
        let mut i: usize = 0;
        while i < targets.len()
            invariant
                0 <= i <= targets@.len(),
                targets.deep_view() == spec_profile_targets(),
                target_exists@.len() == spec_profile_targets().len(),
                create_or_append_files.deep_view() =~= spec_planned_files_upto(
                    target_exists@,
                    i as int,
                ),
            decreases targets@.len() - i,
        {
            if target_exists[i] {
                let planned = CreateOrAppendFile::plan(
                    targets[i].clone(),
                    0o644,
                    nix_profile_block(),
                );
                match planned {
                    Ok(f) => {
                        create_or_append_files.push(f);
                    },
                    Err(e) => {
                        return Err(ConfigureShellProfileError::CreateOrAppendFile(e));
                    },
                }
            }
            proof {
                assert(create_or_append_files.deep_view() =~~= spec_planned_files_upto(
                    target_exists@,
                    i as int + 1,
                ));
            }
            i += 1;
        }
        let r = Self { create_or_append_files, action_state: ActionState::Uncompleted };
        proof {
            assert(r@.files =~= spec_planned_files(target_exists@));
        }
        Ok(r)
    }

    pub fn describe_execute(&self) -> (r: Vec<ActionDescription>)
        ensures
            self@.state == ActionState::Completed ==> r@.len() == 0,
            self@.state != ActionState::Completed ==> r.deep_view() == seq![
                (ActionDescriptionV {
                    title: "Configure the shell profiles"@,
                    explanation: seq!["Update shell profiles to import Nix"@],
                }),
            ],
    {
        if self.action_state.is_completed() {
            Vec::new()
        } else {
            let mut explanation: Vec<String> = Vec::new();
            explanation.push("Update shell profiles to import Nix".to_owned());
            let mut r: Vec<ActionDescription> = Vec::new();
            r.push(ActionDescription::new("Configure the shell profiles".to_owned(), explanation));
            proof {
                assert(r.deep_view() =~~= seq![
                    (ActionDescriptionV {
                        title: "Configure the shell profiles"@,
                        explanation: seq!["Update shell profiles to import Nix"@],
                    }),
                ]);
            }
            r
        }
    }

    pub fn describe_revert(&self) -> (r: Vec<ActionDescription>)
        ensures
            self@.state == ActionState::Uncompleted ==> r@.len() == 0,
            self@.state != ActionState::Uncompleted ==> r.deep_view() == seq![
                (ActionDescriptionV {
                    title: "Unconfigure the shell profiles"@,
                    explanation: seq!["Update shell profiles to no longer import Nix"@],
                }),
            ],
    {
        if self.action_state.is_uncompleted() {
            Vec::new()
        } else {
            let mut explanation: Vec<String> = Vec::new();
            explanation.push("Update shell profiles to no longer import Nix".to_owned());
            let mut r: Vec<ActionDescription> = Vec::new();
            r.push(
                ActionDescription::new("Unconfigure the shell profiles".to_owned(), explanation),
            );
            proof {
                assert(r.deep_view() =~~= seq![
                    (ActionDescriptionV {
                        title: "Unconfigure the shell profiles"@,
                        explanation: seq!["Update shell profiles to no longer import Nix"@],
                    }),
                ]);
            }
            r
        }
    }

    /// Enter one `execute` call. Already `Completed` means nothing to
    /// do (idempotent short-circuit, the caller returns success);
    /// otherwise the composite transitions to `InProgress` and the
    /// driver fans the children out.
    pub fn begin_execute(&mut self) -> (proceed: bool)
        ensures
            final(self)@.files == old(self)@.files,
            proceed == (old(self)@.state != ActionState::Completed),
            !proceed ==> final(self)@.state == old(self)@.state,
            proceed ==> final(self)@.state == ActionState::InProgress,
    {
        if self.action_state.is_completed() {
            false
        } else {
            self.action_state = ActionState::InProgress;
            true
        }
    }

    /// Enter one `revert` call: the mirror of `begin_execute`, with
    /// `Uncompleted` as the vacuous state.
    pub fn begin_revert(&mut self) -> (proceed: bool)
        ensures
            final(self)@.files == old(self)@.files,
            proceed == (old(self)@.state != ActionState::Uncompleted),
            !proceed ==> final(self)@.state == old(self)@.state,
            proceed ==> final(self)@.state == ActionState::InProgress,
    {
        if self.action_state.is_uncompleted() {
            false
        } else {
            self.action_state = ActionState::InProgress;
            true
        }
    }

    /// Reconcile one fan-out round: write each successful child back at
    /// its original index, leave each failed child as it was, collect
    /// the failures in child order, and finalize the state to
    /// `terminal` only when every child succeeded. Exactly one failure
    /// propagates the child error itself; two or more are wrapped
    /// together, in child order. On any failure the composite stays
    /// `InProgress`, so a retry can resume.
    fn reconcile(&mut self, results: Vec<ChildOutcome>, terminal: ActionState) -> (r: Result<
        (),
        ConfigureShellProfileError,
    >)
        requires
            old(self)@.state == ActionState::InProgress,
            outcomes_valid(old(self)@.files.len() as int, results.deep_view()),
        ensures
            final(self)@.files == children_after(old(self)@.files, results.deep_view()),
            ({
                let errs = errors_range(
                    results.deep_view(),
                    0,
                    old(self)@.files.len() as int,
                );
                &&& (errs.len() == 0 ==> r is Ok && final(self)@.state == terminal)
                &&& (errs.len() == 1 ==> final(self)@.state == ActionState::InProgress && (
                r matches Err(e) && e@ == ConfigureShellProfileErrorV::CreateOrAppendFile(
                    errs[0],
                )))
                &&& (errs.len() > 1 ==> final(self)@.state == ActionState::InProgress && (
                r matches Err(e) && e@ == ConfigureShellProfileErrorV::MultipleCreateOrAppendFile(
                    errs,
                )))
            }),
    {
        let ghost rs = results.deep_view();
        let ghost cs = old(self)@.files;
        let n = self.create_or_append_files.len();

        let mut slots: Vec<Option<Result<CreateOrAppendFile, CreateOrAppendFileError>>> =
            Vec::new();
        let mut k: usize = 0;
        while k < n
            invariant
                0 <= k <= n,
                slots@.len() == k,
                forall|i: int| 0 <= i < k ==> (#[trigger] slots@[i]) is None,
            decreases n - k,
        {
            slots.push(None);
            k += 1;
        }

        let mut remaining = results;
        proof {
            assert(remaining.deep_view() =~= rs.subrange(0, remaining@.len() as int));
        }
        while remaining.len() > 0
            invariant
                slots@.len() == n,
                n == cs.len(),
                n == self.create_or_append_files@.len(),
                outcomes_valid(n as int, rs),
                remaining.deep_view() =~= rs.subrange(0, remaining@.len() as int),
                remaining@.len() <= rs.len(),
                forall|i: int|
                    0 <= i < n ==> slot_matches(
                        slot_view(#[trigger] slots@[i]),
                        rs,
                        remaining@.len() as int,
                        i,
                    ),
            decreases remaining@.len(),
        {
            let ghost m = remaining@.len() as int;
            let ghost pre = remaining.deep_view();
            let ghost slots_before = slots@;
            match remaining.pop() {
                Some(oc) => {
                    proof {
                        assert(remaining.deep_view() =~= rs.subrange(0, m - 1));
                        assert(oc.deep_view() == pre[m - 1]);
                        assert(pre[m - 1] == rs.subrange(0, m)[m - 1]);
                        assert(oc.deep_view() == rs[m - 1]);
                        assert(0 <= rs[m - 1].index < n);
                    }
                    let idx = oc.index;
                    slots[idx] = Some(oc.outcome);
                    proof {
                        let m1 = m - 1;
                        assert(rs[m1].index == idx as int);
                        assert(slot_view(slots@[idx as int]) == Some(rs[m1].outcome));
                        assert forall|i: int| 0 <= i < n implies slot_matches(
                            slot_view(slots@[i]),
                            rs,
                            m1,
                            i,
                        ) by {
                            if i == idx as int {
                                assert forall|j: int|
                                    m1 <= j < rs.len() && (#[trigger] rs[j]).index == i implies
                                    slot_view(slots@[i]) == Some(rs[j].outcome) by {
                                    if j != m1 {
                                        assert(rs[j].index != rs[m1].index);
                                    }
                                }
                            } else {
                                assert(slots@[i] == slots_before[i]);
                                assert(slot_matches(slot_view(slots_before[i]), rs, m, i));
                                assert forall|j: int|
                                    m1 <= j < rs.len() && (#[trigger] rs[j]).index == i implies
                                    slot_view(slots@[i]) == Some(rs[j].outcome) by {
                                    assert(j != m1);
                                    assert(m <= j < rs.len() && rs[j].index == i);
                                }
                                if slot_view(slots@[i]) is Some {
                                    let kw = choose|j: int|
                                        m <= j < rs.len() && (#[trigger] rs[j]).index == i;
                                    assert(m1 <= kw < rs.len() && rs[kw].index == i);
                                }
                            }
                        }
                    }
                },
                None => {},
            }
        }
        proof {
            assert forall|i: int| 0 <= i < n implies slot_view(slots@[i]) == Some(
                outcome_of(rs, i),
            ) by {
                assert(slot_matches(slot_view(slots@[i]), rs, 0, i));
                assert(covers(rs, i));
                assert(exists|j: int| 0 <= j < rs.len() && rs[j].index == i);
                let kc = choose|j: int| 0 <= j < rs.len() && rs[j].index == i;
                assert(0 <= kc < rs.len() && rs[kc].index == i);
                assert(slot_view(slots@[i]) == Some(rs[kc].outcome));
                assert(outcome_of(rs, i) == rs[kc].outcome);
            }
        }

        let mut errors: Vec<CreateOrAppendFileError> = Vec::new();
        let mut i: usize = n;
        proof {
            assert(errors.deep_view() =~= errors_range(rs, i as int, n as int));
        }
        while i > 0
            invariant
                0 <= i <= n,
                slots@.len() == i,
                n == cs.len(),
                n == self.create_or_append_files@.len(),
                outcomes_valid(n as int, rs),
                self.action_state == ActionState::InProgress,
                forall|i2: int|
                    0 <= i2 < i ==> slot_view(#[trigger] slots@[i2]) == Some(outcome_of(rs, i2)),
                forall|i2: int|
                    0 <= i2 < i ==> (#[trigger] self.create_or_append_files@[i2])@ == cs[i2],
                forall|i2: int|
                    i <= i2 < n ==> (#[trigger] self.create_or_append_files@[i2])@ == child_after(
                        cs[i2],
                        outcome_of(rs, i2),
                    ),
                errors.deep_view() =~= errors_range(rs, i as int, n as int),
            decreases i,
        {
            i -= 1;
            let ghost slots_before = slots@;
            match slots.pop() {
                Some(slot_oc) => {
                    proof {
                        assert(slot_view(slots_before[i as int]) == Some(outcome_of(rs, i as int)));
                    }
                    match slot_oc {
                        Some(Ok(c)) => {
                            proof {
                                assert(outcome_of(rs, i as int) == Result::<
                                    CreateOrAppendFileV,
                                    CreateOrAppendFileErrorV,
                                >::Ok(c@));
                            }
                            self.create_or_append_files[i] = c;
                            proof {
                                assert(errors.deep_view() =~= errors_range(
                                    rs,
                                    i as int,
                                    n as int,
                                ));
                            }
                        },
                        Some(Err(e)) => {
                            proof {
                                assert(outcome_of(rs, i as int) == Result::<
                                    CreateOrAppendFileV,
                                    CreateOrAppendFileErrorV,
                                >::Err(e@));
                            }
                            let ghost errors_before = errors.deep_view();
                            errors.insert(0, e);
                            proof {
                                assert(errors.deep_view() =~= seq![e@] + errors_before);
                                assert(seq![e@] + errors_range(rs, i as int + 1, n as int)
                                    =~= errors_range(rs, i as int, n as int));
                            }
                        },
                        None => {},
                    }
                },
                None => {},
            }
        }
        let ghost errs = errors_range(rs, 0, n as int);
        proof {
            assert(errors.deep_view() =~= errs);
            assert(self.create_or_append_files.deep_view() =~= children_after(cs, rs));
        }

        if errors.len() == 0 {
            self.action_state = terminal;
            Ok(())
        } else if errors.len() == 1 {
            let e = errors.remove(0);
            proof {
                assert(e@ == errs[0]);
            }
            Err(ConfigureShellProfileError::CreateOrAppendFile(e))
        } else {
            proof {
                assert(errors.deep_view() == errs);
            }
            Err(ConfigureShellProfileError::MultipleCreateOrAppendFile(errors))
        }
    }

    /// Finish one `execute` call from the completed fan-out results.
    /// Zero failures completes the composite; exactly one failure
    /// propagates that child error; several are aggregated in child
    /// order; either failure leaves the composite `InProgress` with
    /// every successful child written back, ready for a retry.
    pub fn finish_execute(&mut self, results: Vec<ChildOutcome>) -> (r: Result<
        (),
        ConfigureShellProfileError,
    >)
        requires
            old(self)@.state == ActionState::InProgress,
            outcomes_valid(old(self)@.files.len() as int, results.deep_view()),
        ensures
            final(self)@.files == children_after(old(self)@.files, results.deep_view()),
            ({
                let errs = errors_range(
                    results.deep_view(),
                    0,
                    old(self)@.files.len() as int,
                );
                &&& (errs.len() == 0 ==> r is Ok && final(self)@.state == ActionState::Completed)
                &&& (errs.len() == 1 ==> final(self)@.state == ActionState::InProgress && (
                r matches Err(e) && e@ == ConfigureShellProfileErrorV::CreateOrAppendFile(
                    errs[0],
                )))
                &&& (errs.len() > 1 ==> final(self)@.state == ActionState::InProgress && (
                r matches Err(e) && e@ == ConfigureShellProfileErrorV::MultipleCreateOrAppendFile(
                    errs,
                )))
            }),
    {
        self.reconcile(results, ActionState::Completed)
    }

    /// Finish one `revert` call: the mirror of `finish_execute`, with
    /// `Uncompleted` as the terminal state.
    pub fn finish_revert(&mut self, results: Vec<ChildOutcome>) -> (r: Result<
        (),
        ConfigureShellProfileError,
    >)
        requires
            old(self)@.state == ActionState::InProgress,
            outcomes_valid(old(self)@.files.len() as int, results.deep_view()),
        ensures
            final(self)@.files == children_after(old(self)@.files, results.deep_view()),
            ({
                let errs = errors_range(
                    results.deep_view(),
                    0,
                    old(self)@.files.len() as int,
                );
                &&& (errs.len() == 0 ==> r is Ok && final(self)@.state == ActionState::Uncompleted)
                &&& (errs.len() == 1 ==> final(self)@.state == ActionState::InProgress && (
                r matches Err(e) && e@ == ConfigureShellProfileErrorV::CreateOrAppendFile(
                    errs[0],
                )))
                &&& (errs.len() > 1 ==> final(self)@.state == ActionState::InProgress && (
                r matches Err(e) && e@ == ConfigureShellProfileErrorV::MultipleCreateOrAppendFile(
                    errs,
                )))
            }),
    {
        self.reconcile(results, ActionState::Uncompleted)
    }

    /// Rebuild the composite as a persisted plan recorded it, children
    /// and completion state included; used when resuming a stored plan.
    pub fn restore(files: Vec<CreateOrAppendFile>, state: ActionState) -> (r: Self)
        ensures
            r@ == (ConfigureShellProfileV { files: files.deep_view(), state: state }),
    {
        Self { create_or_append_files: files, action_state: state }
    }

    pub fn action_state(&self) -> (r: ActionState)
        ensures
            r == self@.state,
    {
        self.action_state
    }

    /// The child at original index `i`.
    pub fn child(&self, i: usize) -> (r: &CreateOrAppendFile)
        requires
            i < self@.files.len(),
        ensures
            r@ == self@.files[i as int],
    {
        &self.create_or_append_files[i]
    }

    pub fn len(&self) -> (r: usize)
        ensures
            r == self@.files.len(),
    {
        self.create_or_append_files.len()
    }
}

/// Order preservation under concurrency: whatever position a result
/// arrived at in the completed fan-out, reconciliation places it at
/// the original index its unit was tagged with.
pub proof fn lemma_order_preservation(
    cs: Seq<CreateOrAppendFileV>,
    rs: Seq<ChildOutcomeV>,
    j: int,
)
    requires
        outcomes_valid(cs.len() as int, rs),
        0 <= j < rs.len(),
    ensures
        children_after(cs, rs)[rs[j].index] == child_after(cs[rs[j].index], rs[j].outcome),
{
    let i = rs[j].index;
    assert(0 <= i < cs.len());
    assert(exists|jj: int| 0 <= jj < rs.len() && (#[trigger] rs[jj]).index == i) by {
        assert(rs[j].index == i);
    }
    let kc = choose|jj: int| 0 <= jj < rs.len() && rs[jj].index == i;
    assert(0 <= kc < rs.len() && rs[kc].index == i);
    if kc != j {
        assert(rs[kc].index != rs[j].index);
    }
    assert(outcome_of(rs, i) == rs[j].outcome);
}

/// A round in which every child in `[from, to)` succeeded aggregates
/// no error.
pub proof fn lemma_errors_range_all_ok(rs: Seq<ChildOutcomeV>, from: int, to: int)
    requires
        forall|i: int| from <= i < to ==> (#[trigger] outcome_of(rs, i)) is Ok,
    ensures
        errors_range(rs, from, to).len() == 0,
    decreases to - from,
{
    if from < to {
        lemma_errors_range_all_ok(rs, from + 1, to);
    }
}

/// Error cardinality, single-failure case: when exactly one child in
/// `[from, to)` failed, the aggregated error sequence is exactly that
/// child's error.
pub proof fn lemma_errors_range_single(rs: Seq<ChildOutcomeV>, from: int, to: int, f: int)
    requires
        from <= f < to,
        outcome_of(rs, f) is Err,
        forall|i: int| from <= i < to && i != f ==> (#[trigger] outcome_of(rs, i)) is Ok,
    ensures
        errors_range(rs, from, to) == seq![outcome_of(rs, f)->Err_0],
    decreases to - from,
{
    if from == f {
        lemma_errors_range_all_ok(rs, from + 1, to);
        assert(errors_range(rs, from + 1, to) =~= Seq::<CreateOrAppendFileErrorV>::empty());
        assert(seq![outcome_of(rs, f)->Err_0] + Seq::<CreateOrAppendFileErrorV>::empty()
            =~= seq![outcome_of(rs, f)->Err_0]);
    } else {
        lemma_errors_range_single(rs, from + 1, to, f);
        assert(Seq::<CreateOrAppendFileErrorV>::empty() + seq![outcome_of(rs, f)->Err_0]
            =~= seq![outcome_of(rs, f)->Err_0]);
    }
}

/// Partial-failure isolation: when child `f` fails while every other
/// child succeeds, reconciliation leaves child `f` exactly as it was,
/// installs every other child's new state, and aggregates exactly the
/// one error; a following retry round in which `f` succeeds and the
/// others short-circuit unchanged succeeds with no further change to
/// them.
pub proof fn lemma_partial_failure_isolation(
    cs: Seq<CreateOrAppendFileV>,
    rs1: Seq<ChildOutcomeV>,
    rs2: Seq<ChildOutcomeV>,
    f: int,
)
    requires
        outcomes_valid(cs.len() as int, rs1),
        outcomes_valid(cs.len() as int, rs2),
        0 <= f < cs.len(),
        outcome_of(rs1, f) is Err,
        forall|i: int| 0 <= i < cs.len() && i != f ==> (#[trigger] outcome_of(rs1, i)) is Ok,
        outcome_of(rs2, f) is Ok,
        forall|i: int|
            0 <= i < cs.len() && i != f ==> (#[trigger] outcome_of(rs2, i)) == Result::<
                CreateOrAppendFileV,
                CreateOrAppendFileErrorV,
            >::Ok(children_after(cs, rs1)[i]),
    ensures
        children_after(cs, rs1)[f] == cs[f],
        errors_range(rs1, 0, cs.len() as int) == seq![outcome_of(rs1, f)->Err_0],
        errors_range(rs2, 0, cs.len() as int).len() == 0,
        forall|i: int|
            0 <= i < cs.len() && i != f ==> children_after(children_after(cs, rs1), rs2)[i]
                == children_after(cs, rs1)[i],
        children_after(children_after(cs, rs1), rs2)[f] == outcome_of(rs2, f)->Ok_0,
{
    lemma_errors_range_single(rs1, 0, cs.len() as int, f);
    assert forall|i: int| 0 <= i < cs.len() implies (#[trigger] outcome_of(rs2, i)) is Ok by {
        if i != f {
            assert(outcome_of(rs2, i) is Ok);
        }
    }
    lemma_errors_range_all_ok(rs2, 0, cs.len() as int);
    assert forall|i: int|
        0 <= i < cs.len() && i != f implies children_after(children_after(cs, rs1), rs2)[i]
        == children_after(cs, rs1)[i] by {
        assert(children_after(children_after(cs, rs1), rs2)[i] == child_after(
            children_after(cs, rs1)[i],
            outcome_of(rs2, i),
        ));
    }
}

} // verus!
