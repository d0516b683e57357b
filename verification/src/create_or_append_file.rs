use vstd::prelude::*;

use crate::ActionDescription;
use crate::ActionDescriptionV;
use crate::ActionState;

verus! {

/// Mathematical value of a [`CreateOrAppendFile`] action.
#[verifier::ext_equal]
pub struct CreateOrAppendFileV {
    pub path: Seq<char>,
    pub mode: u32,
    pub buf: Seq<char>,
    pub state: ActionState,
}

/// Leaf action: create the file at `path` (with `mode`) if it is absent,
/// and append `buf` to it. Reverting strips the appended block again.
///
/// The action only decides what must be done; the host mutation itself
/// is performed by a driver, which reports the outcome back through
/// `execute_finish` / `revert_finish`.
#[derive(Debug, Clone, PartialEq, Eq)]
pub struct CreateOrAppendFile {
    path: String,
    mode: u32,
    buf: String,
    action_state: ActionState,
}

impl View for CreateOrAppendFile {
    type V = CreateOrAppendFileV;

    closed spec fn view(&self) -> CreateOrAppendFileV {
        CreateOrAppendFileV {
            path: self.path@,
            mode: self.mode,
            buf: self.buf@,
            state: self.action_state,
        }
    }
}

impl DeepView for CreateOrAppendFile {
    type V = CreateOrAppendFileV;

    open spec fn deep_view(&self) -> CreateOrAppendFileV {
        self.view()
    }
}

/// Error a [`CreateOrAppendFile`] action reports: editing the target
/// file failed. It carries the target path and the underlying cause
/// so the failure is diagnosable.
#[derive(Debug, Clone, PartialEq, Eq)]
pub enum CreateOrAppendFileError {
    WriteFile { path: String, message: String },
}

/// Mathematical value of a [`CreateOrAppendFileError`].
#[verifier::ext_equal]
pub enum CreateOrAppendFileErrorV {
    WriteFile { path: Seq<char>, message: Seq<char> },
}

impl View for CreateOrAppendFileError {
    type V = CreateOrAppendFileErrorV;

    open spec fn view(&self) -> CreateOrAppendFileErrorV {
        match self {
            CreateOrAppendFileError::WriteFile { path, message } => {
                CreateOrAppendFileErrorV::WriteFile { path: path@, message: message@ }
            },
        }
    }
}

impl DeepView for CreateOrAppendFileError {
    type V = CreateOrAppendFileErrorV;

    open spec fn deep_view(&self) -> CreateOrAppendFileErrorV {
        self.view()
    }
}

/// The one host mutation a [`CreateOrAppendFile`] asks its driver for:
/// append `buf` to the file at `path`, creating it with `mode` first
/// when it does not exist (on `execute`), or strip that appended block
/// again (on `revert`).
#[derive(Debug, Clone, PartialEq, Eq)]
pub struct FileChange {
    pub path: String,
    pub mode: u32,
    pub buf: String,
}

impl CreateOrAppendFile {
    /// Plan the action. Planning is pure: it only records the target.
    pub fn plan(path: String, mode: u32, buf: String) -> (r: Result<
        Self,
        CreateOrAppendFileError,
    >)
        ensures
            (r matches Ok(f) && f@ == (CreateOrAppendFileV {
                path: path@,
                mode: mode,
                buf: buf@,
                state: ActionState::Uncompleted,
            })),
    {
        Ok(Self { path, mode, buf, action_state: ActionState::Uncompleted })
    }

    pub fn describe_execute(&self) -> (r: Vec<ActionDescription>)
        ensures
            self@.state == ActionState::Completed ==> r@.len() == 0,
            self@.state != ActionState::Completed ==> r.deep_view() == seq![
                (ActionDescriptionV {
                    title: "Create or append to file"@,
                    explanation: seq![self@.path],
                }),
            ],
    {
        if self.action_state.is_completed() {
            Vec::new()
        } else {
            let mut explanation: Vec<String> = Vec::new();
            explanation.push(self.path.clone());
            let mut r: Vec<ActionDescription> = Vec::new();
            r.push(ActionDescription::new("Create or append to file".to_owned(), explanation));
            proof {
                assert(r.deep_view() =~~= seq![
                    ActionDescriptionV {
                        title: "Create or append to file"@,
                        explanation: seq![self@.path],
                    },
                ]);
            }
            r
        }
    }

    pub fn describe_revert(&self) -> (r: Vec<ActionDescription>)
        ensures
            self@.state == ActionState::Uncompleted ==> r@.len() == 0,
            self@.state != ActionState::Uncompleted ==> r.deep_view() == seq![
                (ActionDescriptionV {
                    title: "Remove the appended block from file"@,
                    explanation: seq![self@.path],
                }),
            ],
    {
        if self.action_state.is_uncompleted() {
            Vec::new()
        } else {
            let mut explanation: Vec<String> = Vec::new();
            explanation.push(self.path.clone());
            let mut r: Vec<ActionDescription> = Vec::new();
            r.push(
                ActionDescription::new("Remove the appended block from file".to_owned(), explanation),
            );
            proof {
                assert(r.deep_view() =~~= seq![
                    ActionDescriptionV {
                        title: "Remove the appended block from file"@,
                        explanation: seq![self@.path],
                    },
                ]);
            }
            r
        }
    }

    /// Decide the host mutation one `execute` call must perform.
    ///
    /// `None` exactly when the action is already `Completed`: executing
    /// again is then a no-op (idempotent short-circuit).
    pub fn execute_decide(&self) -> (r: Option<FileChange>)
        ensures
            self@.state == ActionState::Completed <==> r is None,
            self@.state != ActionState::Completed ==> (r matches Some(c) && c.path@ == self@.path
                && c.mode == self@.mode && c.buf@ == self@.buf),
    {
        if self.action_state.is_completed() {
            None
        } else {
            Some(
                FileChange {
                    path: self.path.clone(),
                    mode: self.mode,
                    buf: self.buf.clone(),
                },
            )
        }
    }

    /// Record the outcome the driver reports for the mutation of
    /// `execute_decide`. Success completes the action; failure leaves
    /// it unchanged so a retry is safe.
    pub fn execute_finish(&mut self, outcome: Result<(), String>) -> (r: Result<
        (),
        CreateOrAppendFileError,
    >)
        ensures
            final(self)@.path == old(self)@.path,
            final(self)@.mode == old(self)@.mode,
            final(self)@.buf == old(self)@.buf,
            outcome is Ok ==> r is Ok && final(self)@.state == ActionState::Completed,
            (outcome matches Err(m) ==> final(self)@.state == old(self)@.state && (
            r matches Err(e) && e@ == (CreateOrAppendFileErrorV::WriteFile {
                path: old(self)@.path,
                message: m@,
            }))),
    {
        match outcome {
            Ok(()) => {
                self.action_state = ActionState::Completed;
                Ok(())
            },
            Err(message) => Err(
                CreateOrAppendFileError::WriteFile { path: self.path.clone(), message },
            ),
        }
    }

    /// Decide the compensating mutation one `revert` call must perform.
    ///
    /// `None` exactly when the action is already `Uncompleted`.
    pub fn revert_decide(&self) -> (r: Option<FileChange>)
        ensures
            self@.state == ActionState::Uncompleted <==> r is None,
            self@.state != ActionState::Uncompleted ==> (r matches Some(c) && c.path@ == self@.path
                && c.mode == self@.mode && c.buf@ == self@.buf),
    {
        if self.action_state.is_uncompleted() {
            None
        } else {
            Some(
                FileChange {
                    path: self.path.clone(),
                    mode: self.mode,
                    buf: self.buf.clone(),
                },
            )
        }
    }

    /// Record the outcome the driver reports for the mutation of
    /// `revert_decide`. Success returns the action to `Uncompleted`;
    /// failure leaves it unchanged so a retry is safe.
    pub fn revert_finish(&mut self, outcome: Result<(), String>) -> (r: Result<
        (),
        CreateOrAppendFileError,
    >)
        ensures
            final(self)@.path == old(self)@.path,
            final(self)@.mode == old(self)@.mode,
            final(self)@.buf == old(self)@.buf,
            outcome is Ok ==> r is Ok && final(self)@.state == ActionState::Uncompleted,
            (outcome matches Err(m) ==> final(self)@.state == old(self)@.state && (
            r matches Err(e) && e@ == (CreateOrAppendFileErrorV::WriteFile {
                path: old(self)@.path,
                message: m@,
            }))),
    {
        match outcome {
            Ok(()) => {
                self.action_state = ActionState::Uncompleted;
                Ok(())
            },
            Err(message) => Err(
                CreateOrAppendFileError::WriteFile { path: self.path.clone(), message },
            ),
        }
    }

    /// Rebuild the action as a persisted plan recorded it, including
    /// its completion state; used when resuming a stored plan.
    pub fn restore(path: String, mode: u32, buf: String, state: ActionState) -> (r: Self)
        ensures
            r@ == (CreateOrAppendFileV { path: path@, mode: mode, buf: buf@, state: state }),
    {
        Self { path, mode, buf, action_state: state }
    }

    pub fn action_state(&self) -> (r: ActionState)
        ensures
            r == self@.state,
    {
        self.action_state
    }

    pub fn path(&self) -> (r: &String)
        ensures
            r@ == self@.path,
    {
        &self.path
    }

    pub fn buf(&self) -> (r: &String)
        ensures
            r@ == self@.buf,
    {
        &self.buf
    }

    pub fn mode(&self) -> (r: u32)
        ensures
            r == self@.mode,
    {
        self.mode
    }
}

} // verus!
