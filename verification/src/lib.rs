use vstd::prelude::*;

pub mod action;
pub mod codec;
pub mod configure_shell_profile;
pub mod create_or_append_file;
pub mod setup_default_profile;

verus! {

/// The completion status attached to every action instance.
///
/// `execute` is a no-op once `Completed`; `revert` is a no-op once
/// `Uncompleted`. Composites hold `InProgress` while children are in
/// flight, and keep it after a partial failure so a retry can resume.
#[derive(Clone, Copy, Debug, PartialEq, Eq, Structural)]
pub enum ActionState {
    Uncompleted,
    InProgress,
    Completed,
}

impl ActionState {
    pub fn is_completed(&self) -> (r: bool)
        ensures
            r == (*self == ActionState::Completed),
    {
        matches!(self, ActionState::Completed)
    }

    pub fn is_uncompleted(&self) -> (r: bool)
        ensures
            r == (*self == ActionState::Uncompleted),
    {
        matches!(self, ActionState::Uncompleted)
    }
}

/// Mathematical value of an [`ActionDescription`].
#[verifier::ext_equal]
pub struct ActionDescriptionV {
    pub title: Seq<char>,
    pub explanation: Seq<Seq<char>>,
}

/// A human-readable summary of the pending work of an action: a title
/// and ordered explanation lines. Produced on demand, never stored.
#[derive(Debug, Clone, PartialEq, Eq)]
pub struct ActionDescription {
    pub title: String,
    pub explanation: Vec<String>,
}

impl View for ActionDescription {
    type V = ActionDescriptionV;

    open spec fn view(&self) -> ActionDescriptionV {
        ActionDescriptionV { title: self.title@, explanation: self.explanation.deep_view() }
    }
}

impl DeepView for ActionDescription {
    type V = ActionDescriptionV;

    open spec fn deep_view(&self) -> ActionDescriptionV {
        self.view()
    }
}

impl ActionDescription {
    pub fn new(title: String, explanation: Vec<String>) -> (r: Self)
        ensures
            r@ == (ActionDescriptionV { title: title@, explanation: explanation.deep_view() }),
    {
        Self { title, explanation }
    }
}

} // verus!
