use vstd::prelude::*;

use crate::ActionState;
use crate::configure_shell_profile::ConfigureShellProfile;
use crate::configure_shell_profile::ConfigureShellProfileV;
use crate::setup_default_profile::SetupDefaultProfile;
use crate::setup_default_profile::SetupDefaultProfileV;

verus! {

/// Mathematical value of an [`Action`].
#[verifier::ext_equal]
pub enum ActionV {
    SetupDefaultProfile(SetupDefaultProfileV),
    ConfigureShellProfile(ConfigureShellProfileV),
}

/// The closed union of every concrete action type: a plan node that
/// can be stored, resumed and matched exhaustively, without dynamic
/// dispatch.
#[derive(Debug, Clone, PartialEq, Eq)]
pub enum Action {
    SetupDefaultProfile(SetupDefaultProfile),
    ConfigureShellProfile(ConfigureShellProfile),
}

impl View for Action {
    type V = ActionV;

    open spec fn view(&self) -> ActionV {
        match self {
            Action::SetupDefaultProfile(a) => ActionV::SetupDefaultProfile(a@),
            Action::ConfigureShellProfile(a) => ActionV::ConfigureShellProfile(a@),
        }
    }
}

impl DeepView for Action {
    type V = ActionV;

    open spec fn deep_view(&self) -> ActionV {
        self.view()
    }
}

impl From<SetupDefaultProfile> for Action {
    fn from(v: SetupDefaultProfile) -> (r: Action) {
        Action::SetupDefaultProfile(v)
    }
}

impl vstd::std_specs::convert::FromSpecImpl<SetupDefaultProfile> for Action {
    open spec fn obeys_from_spec() -> bool {
        true
    }

    open spec fn from_spec(v: SetupDefaultProfile) -> Action {
        Action::SetupDefaultProfile(v)
    }
}

impl From<ConfigureShellProfile> for Action {
    fn from(v: ConfigureShellProfile) -> (r: Action) {
        Action::ConfigureShellProfile(v)
    }
}

impl vstd::std_specs::convert::FromSpecImpl<ConfigureShellProfile> for Action {
    open spec fn obeys_from_spec() -> bool {
        true
    }

    open spec fn from_spec(v: ConfigureShellProfile) -> Action {
        Action::ConfigureShellProfile(v)
    }
}

/// The state a node's variant carries.
pub open spec fn spec_action_state(a: ActionV) -> ActionState {
    match a {
        ActionV::SetupDefaultProfile(s) => s.state,
        ActionV::ConfigureShellProfile(c) => c.state,
    }
}

impl Action {
    pub fn action_state(&self) -> (r: ActionState)
        ensures
            r == spec_action_state(self@),
    {
        match self {
            Action::SetupDefaultProfile(a) => a.action_state(),
            Action::ConfigureShellProfile(a) => a.action_state(),
        }
    }
}

} // verus!
