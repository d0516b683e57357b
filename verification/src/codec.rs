use vstd::prelude::*;

use crate::ActionState;
use crate::action::Action;
use crate::action::ActionV;
use crate::configure_shell_profile::ConfigureShellProfile;
use crate::configure_shell_profile::ConfigureShellProfileV;
use crate::create_or_append_file::CreateOrAppendFile;
use crate::create_or_append_file::CreateOrAppendFileV;
use crate::setup_default_profile::SetupDefaultProfile;
use crate::setup_default_profile::SetupDefaultProfileV;

verus! {

/// Mathematical value of a [`FileRecord`].
#[verifier::ext_equal]
pub struct FileRecordV {
    pub path: Seq<char>,
    pub mode: u32,
    pub buf: Seq<char>,
    pub state_code: u8,
}

/// The persisted shape of one [`CreateOrAppendFile`] child: its plain
/// fields, with the completion state as a small numeric code.
#[derive(Debug, Clone, PartialEq, Eq)]
pub struct FileRecord {
    pub path: String,
    pub mode: u32,
    pub buf: String,
    pub state_code: u8,
}

impl View for FileRecord {
    type V = FileRecordV;

    open spec fn view(&self) -> FileRecordV {
        FileRecordV {
            path: self.path@,
            mode: self.mode,
            buf: self.buf@,
            state_code: self.state_code,
        }
    }
}

impl DeepView for FileRecord {
    type V = FileRecordV;

    open spec fn deep_view(&self) -> FileRecordV {
        self.view()
    }
}

/// Mathematical value of an [`ActionRecord`].
#[verifier::ext_equal]
pub enum ActionRecordV {
    SetupDefaultProfile { channels: Seq<Seq<char>>, state_code: u8 },
    ConfigureShellProfile { files: Seq<FileRecordV>, state_code: u8 },
}

/// The persisted shape of a whole [`Action`] node: one variant per
/// concrete action type, holding only plain values, so a driver can
/// store a plan and resume it across process restarts. Decoding
/// validates the state codes and fails on an unknown one.
#[derive(Debug, Clone, PartialEq, Eq)]
pub enum ActionRecord {
    SetupDefaultProfile { channels: Vec<String>, state_code: u8 },
    ConfigureShellProfile { files: Vec<FileRecord>, state_code: u8 },
}

impl View for ActionRecord {
    type V = ActionRecordV;

    open spec fn view(&self) -> ActionRecordV {
        match self {
            ActionRecord::SetupDefaultProfile { channels, state_code } => {
                ActionRecordV::SetupDefaultProfile {
                    channels: channels.deep_view(),
                    state_code: *state_code,
                }
            },
            ActionRecord::ConfigureShellProfile { files, state_code } => {
                ActionRecordV::ConfigureShellProfile {
                    files: files.deep_view(),
                    state_code: *state_code,
                }
            },
        }
    }
}

impl DeepView for ActionRecord {
    type V = ActionRecordV;

    open spec fn deep_view(&self) -> ActionRecordV {
        self.view()
    }
}

pub open spec fn spec_state_code(s: ActionState) -> u8 {
    match s {
        ActionState::Uncompleted => 0,
        ActionState::InProgress => 1,
        ActionState::Completed => 2,
    }
}

pub open spec fn spec_state_of_code(c: u8) -> Option<ActionState> {
    if c == 0 {
        Some(ActionState::Uncompleted)
    } else if c == 1 {
        Some(ActionState::InProgress)
    } else if c == 2 {
        Some(ActionState::Completed)
    } else {
        None
    }
}

pub open spec fn spec_file_record(f: CreateOrAppendFileV) -> FileRecordV {
    FileRecordV { path: f.path, mode: f.mode, buf: f.buf, state_code: spec_state_code(f.state) }
}

pub open spec fn spec_file_of_record(r: FileRecordV) -> Option<CreateOrAppendFileV> {
    match spec_state_of_code(r.state_code) {
        Option::None => Option::None,
        Option::Some(st) => Option::Some(
            CreateOrAppendFileV { path: r.path, mode: r.mode, buf: r.buf, state: st },
        ),
    }
}

pub open spec fn spec_files_records(fs: Seq<CreateOrAppendFileV>) -> Seq<FileRecordV> {
    fs.map_values(|f: CreateOrAppendFileV| spec_file_record(f))
}

pub open spec fn spec_files_of_records(rs: Seq<FileRecordV>) -> Option<Seq<CreateOrAppendFileV>>
    decreases rs.len(),
{
    if rs.len() == 0 {
        Option::Some(seq![])
    } else {
        match spec_file_of_record(rs[0]) {
            Option::None => Option::None,
            Option::Some(f) => match spec_files_of_records(rs.drop_first()) {
                Option::None => Option::None,
                Option::Some(t) => Option::Some(seq![f] + t),
            },
        }
    }
}

pub open spec fn spec_record(a: ActionV) -> ActionRecordV {
    match a {
        ActionV::SetupDefaultProfile(s) => ActionRecordV::SetupDefaultProfile {
            channels: s.channels,
            state_code: spec_state_code(s.state),
        },
        ActionV::ConfigureShellProfile(c) => ActionRecordV::ConfigureShellProfile {
            files: spec_files_records(c.files),
            state_code: spec_state_code(c.state),
        },
    }
}

pub open spec fn spec_of_record(r: ActionRecordV) -> Option<ActionV> {
    match r {
        ActionRecordV::SetupDefaultProfile { channels, state_code } => {
            match spec_state_of_code(state_code) {
                Option::None => Option::None,
                Option::Some(st) => Option::Some(
                    ActionV::SetupDefaultProfile(
                        SetupDefaultProfileV { channels: channels, state: st },
                    ),
                ),
            }
        },
        ActionRecordV::ConfigureShellProfile { files, state_code } => {
            match spec_state_of_code(state_code) {
                Option::None => Option::None,
                Option::Some(st) => match spec_files_of_records(files) {
                    Option::None => Option::None,
                    Option::Some(fs) => Option::Some(
                        ActionV::ConfigureShellProfile(
                            ConfigureShellProfileV { files: fs, state: st },
                        ),
                    ),
                },
            }
        },
    }
}

pub proof fn lemma_files_round_trip(fs: Seq<CreateOrAppendFileV>)
    ensures
        spec_files_of_records(spec_files_records(fs)) == Some(fs),
    decreases fs.len(),
{
    let rs = spec_files_records(fs);
    if fs.len() == 0 {
        assert(rs.len() == 0);
        assert(spec_files_of_records(rs) == Some(Seq::<CreateOrAppendFileV>::empty()));
        assert(Seq::<CreateOrAppendFileV>::empty() =~= fs);
    } else {
        assert(rs[0] == spec_file_record(fs[0]));
        assert(spec_file_of_record(rs[0]) matches Some(f0) && f0 =~= fs[0]);
        lemma_files_round_trip(fs.drop_first());
        assert(rs.drop_first() =~= spec_files_records(fs.drop_first()));
        assert(seq![fs[0]] + fs.drop_first() =~= fs);
    }
}

/// Round trip: storing an action tree and reading it back yields a
/// tree with the same variant shapes and the same completion state at
/// every node.
pub proof fn lemma_record_round_trip(a: ActionV)
    ensures
        spec_of_record(spec_record(a)) == Some(a),
{
    match a {
        ActionV::SetupDefaultProfile(s) => {
            assert(spec_state_of_code(spec_state_code(s.state)) == Some(s.state));
            assert((SetupDefaultProfileV { channels: s.channels, state: s.state }) =~= s);
        },
        ActionV::ConfigureShellProfile(c) => {
            assert(spec_state_of_code(spec_state_code(c.state)) == Some(c.state));
            lemma_files_round_trip(c.files);
            assert((ConfigureShellProfileV { files: c.files, state: c.state }) =~= c);
        },
    }
}

fn state_code(s: ActionState) -> (r: u8)
    ensures
        r == spec_state_code(s),
{
    match s {
        ActionState::Uncompleted => 0,
        ActionState::InProgress => 1,
        ActionState::Completed => 2,
    }
}

fn state_of_code(c: u8) -> (r: Option<ActionState>)
    ensures
        r == spec_state_of_code(c),
{
    if c == 0 {
        Some(ActionState::Uncompleted)
    } else if c == 1 {
        Some(ActionState::InProgress)
    } else if c == 2 {
        Some(ActionState::Completed)
    } else {
        None
    }
}

/// An owned copy of a string list, value for value.
fn clone_strings(v: &Vec<String>) -> (r: Vec<String>)
    ensures
        r.deep_view() == v.deep_view(),
{
    let mut r: Vec<String> = Vec::new();
    let mut i: usize = 0;
    while i < v.len()
        invariant
            0 <= i <= v@.len(),
            r.deep_view() =~= v.deep_view().take(i as int),
        decreases v@.len() - i,
    {
        let ghost before = r.deep_view();
        r.push(v[i].clone());
        proof {
            assert(r.deep_view() =~= before.push(v.deep_view()[i as int]));
            assert(before.push(v.deep_view()[i as int]) =~= v.deep_view().take(i as int + 1));
        }
        i += 1;
    }
    proof {
        assert(v.deep_view().take(i as int) =~= v.deep_view());
    }
    r
}

fn file_record_of(f: &CreateOrAppendFile) -> (r: FileRecord)
    ensures
        r@ == spec_file_record(f@),
{
    FileRecord {
        path: f.path().clone(),
        mode: f.mode(),
        buf: f.buf().clone(),
        state_code: state_code(f.action_state()),
    }
}

fn file_of_record(r: &FileRecord) -> (a: Option<CreateOrAppendFile>)
    ensures
        view_opt_file(a) == spec_file_of_record(r@),
{
    match state_of_code(r.state_code) {
        None => None,
        Some(st) => Some(
            CreateOrAppendFile::restore(r.path.clone(), r.mode, r.buf.clone(), st),
        ),
    }
}

/// Value of a decoded child.
pub open spec fn view_opt_file(a: Option<CreateOrAppendFile>) -> Option<CreateOrAppendFileV> {
    match a {
        Option::Some(f) => Option::Some(f@),
        Option::None => Option::None,
    }
}

/// Value of a decoded action.
pub open spec fn view_opt_action(a: Option<Action>) -> Option<ActionV> {
    match a {
        Option::Some(x) => Option::Some(x@),
        Option::None => Option::None,
    }
}

/// Encode an action tree into its persisted record.
pub fn record_of_action(a: &Action) -> (r: ActionRecord)
    ensures
        r@ == spec_record(a@),
{
    match a {
        Action::SetupDefaultProfile(s) => {
            let r = ActionRecord::SetupDefaultProfile {
                channels: clone_strings(s.channels()),
                state_code: state_code(s.action_state()),
            };
            proof {
                assert(r@ =~~= spec_record(a@));
            }
            r
        },
        Action::ConfigureShellProfile(c) => {
            let mut files: Vec<FileRecord> = Vec::new();
            let n = c.len();
            let mut i: usize = 0;
            while i < n
                invariant
                    0 <= i <= n,
                    n == c@.files.len(),
                    files.deep_view() =~= spec_files_records(c@.files).take(i as int),
                decreases n - i,
            {
                let ghost before = files.deep_view();
                files.push(file_record_of(c.child(i)));
                proof {
                    assert(files.deep_view() =~= before.push(spec_file_record(c@.files[i as int])));
                    assert(before.push(spec_file_record(c@.files[i as int]))
                        =~= spec_files_records(c@.files).take(i as int + 1));
                }
                i += 1;
            }
            proof {
                assert(spec_files_records(c@.files).take(i as int) =~= spec_files_records(
                    c@.files,
                ));
            }
            let r = ActionRecord::ConfigureShellProfile {
                files,
                state_code: state_code(c.action_state()),
            };
            proof {
                assert(r@ =~~= spec_record(a@));
            }
            r
        },
    }
}

/// Decode a persisted record back into an action tree; `None` when a
/// state code is not one the engine writes.
pub fn action_of_record(r: &ActionRecord) -> (a: Option<Action>)
    ensures
        view_opt_action(a) == spec_of_record(r@),
{
    match r {
        ActionRecord::SetupDefaultProfile { channels, state_code } => {
            match state_of_code(*state_code) {
                None => None,
                Some(st) => Some(
                    Action::SetupDefaultProfile(
                        SetupDefaultProfile::restore(clone_strings(channels), st),
                    ),
                ),
            }
        },
        ActionRecord::ConfigureShellProfile { files, state_code } => {
            let st = match state_of_code(*state_code) {
                None => {
                    return None;
                },
                Some(st) => st,
            };
            let ghost frs = files.deep_view();
            let n = files.len();
            let mut children: Vec<CreateOrAppendFile> = Vec::new();
            let mut i: usize = 0;
            proof {
                assert(frs.subrange(0, n as int) =~= frs);
            }
            while i < n
                invariant
                    0 <= i <= n,
                    n == frs.len(),
                    frs == files.deep_view(),
                    spec_state_of_code(*state_code) == Some(st),
                    r@ == (ActionRecordV::ConfigureShellProfile {
                        files: frs,
                        state_code: *state_code,
                    }),
                    spec_files_of_records(frs) == (match spec_files_of_records(
                        frs.subrange(i as int, n as int),
                    ) {
                        Option::None => Option::<Seq<CreateOrAppendFileV>>::None,
                        Option::Some(t) => Option::Some(children.deep_view() + t),
                    }),
                decreases n - i,
            {
                let ghost rest = frs.subrange(i as int, n as int);
                let ghost children_pre = children.deep_view();
                match file_of_record(&files[i]) {
                    None => {
                        proof {
                            assert(rest[0] == frs[i as int]);
                            assert(spec_files_of_records(rest) is None);
                            assert(spec_files_of_records(frs) is None);
                            assert(spec_state_of_code(*state_code) == Some(st));
                            assert(r@ == (ActionRecordV::ConfigureShellProfile {
                                files: files.deep_view(),
                                state_code: *state_code,
                            }));
                            assert(spec_of_record(r@) is None);
                        }
                        return None;
                    },
                    Some(child) => {
                        children.push(child);
                        proof {
                            assert(rest[0] == frs[i as int]);
                            assert(rest.drop_first() =~= frs.subrange(i as int + 1, n as int));
                            assert(children.deep_view() =~= children_pre.push(child@));
                            match spec_files_of_records(frs.subrange(i as int + 1, n as int)) {
                                Option::None => {},
                                Option::Some(t) => {
                                    assert(spec_files_of_records(rest) == Some(
                                        seq![child@] + t,
                                    ));
                                    assert(children_pre + (seq![child@] + t)
                                        =~= children.deep_view() + t);
                                },
                            }
                        }
                    },
                }
                i += 1;
            }
            proof {
                assert(frs.subrange(i as int, n as int) =~= Seq::<FileRecordV>::empty());
                assert(spec_files_of_records(frs.subrange(i as int, n as int)) == Some(
                    Seq::<CreateOrAppendFileV>::empty(),
                ));
                assert(children.deep_view() + Seq::<CreateOrAppendFileV>::empty()
                    =~= children.deep_view());
            }
            let built = ConfigureShellProfile::restore(children, st);
            proof {
                assert(spec_of_record(r@) == Some(ActionV::ConfigureShellProfile(built@)));
            }
            Some(Action::ConfigureShellProfile(built))
        },
    }
}

} // verus!
