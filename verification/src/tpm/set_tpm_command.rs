//! The provision flow: check that the configured handle is free, create
//! the integrity policy and the primary key, seal a freshly prompted
//! secret, load it, and persist it at the configured handle.

use vstd::prelude::*;
use vstd::string::StringExecFns;
use crate::tpm::check_handle::CheckHandleError;
use crate::tpm::create_object::CreateObjectError;
use crate::tpm::create_policy::CreatePolicyError;
use crate::tpm::create_policy::create_policy;
use crate::tpm::create_primary_key::CreatePrimaryError;
use crate::tpm::create_primary_key::create_primary;
use crate::tpm::load_object::LoadError;
use crate::tpm::load_object::load_object;
use crate::tpm::persist_object::PersistObjectError;
use crate::utils::is_root::RootRequired;
use crate::utils::is_root::require_root;
use crate::utils::response::Response;

verus! {

/// How many steps the provision flow has.
pub const SET_TPM_TOTAL_STEPS: u32 = 7;

/// The steps of the provision flow, in order.
#[derive(Clone, Copy, Debug, Eq, PartialEq, Structural)]
pub enum SetTpmStep {
    /// Effective privilege must be elevated.
    Root,
    /// The configured handle must be free.
    Handle,
    /// Create the integrity policy.
    Policy,
    /// Create the primary key.
    Primary,
    /// Seal the prompted secret into a child object.
    Object,
    /// Load the sealed object.
    Load,
    /// Persist the loaded object at the configured handle.
    Persist,
}

/// The outcome of one step's outside work, fed back to the flow.
pub enum SetTpmEvent {
    /// Whether the effective user is root.
    Root { elevated: bool },
    /// How enumerating and checking the handle went.
    Handle { outcome: Result<(), CheckHandleError> },
    /// What the policy creation reported.
    Policy { report: Response },
    /// What the primary-key creation reported.
    Primary { report: Response },
    /// How prompting and sealing the secret went.
    Object { outcome: Result<(), CreateObjectError> },
    /// What the load call reported.
    Load { report: Response },
    /// How persisting the object went.
    Persist { outcome: Result<(), PersistObjectError> },
}

/// The failure a provision-flow step stopped at, carrying that step's
/// diagnostics.
#[derive(Clone, Debug, Eq, PartialEq)]
pub enum SetTpmFailure {
    /// The privilege guard failed.
    Root(RootRequired),
    /// The handle check failed.
    Handle(CheckHandleError),
    /// The policy creation failed.
    Policy(CreatePolicyError),
    /// The primary-key creation failed.
    Primary(CreatePrimaryError),
    /// Sealing the secret failed.
    Object(CreateObjectError),
    /// Loading the sealed object failed.
    Load(LoadError),
    /// Persisting the object failed.
    Persist(PersistObjectError),
}

impl SetTpmStep {
    /// The position of the step in the flow, starting at one.
    pub open spec fn spec_position(self) -> int {
        match self {
            SetTpmStep::Root => 1,
            SetTpmStep::Handle => 2,
            SetTpmStep::Policy => 3,
            SetTpmStep::Primary => 4,
            SetTpmStep::Object => 5,
            SetTpmStep::Load => 6,
            SetTpmStep::Persist => 7,
        }
    }

    /// The position of the step in the flow, starting at one.
    pub fn position(self) -> (n: u32)
        ensures
            n == self.spec_position(),
    {
        match self {
            SetTpmStep::Root => 1,
            SetTpmStep::Handle => 2,
            SetTpmStep::Policy => 3,
            SetTpmStep::Primary => 4,
            SetTpmStep::Object => 5,
            SetTpmStep::Load => 6,
            SetTpmStep::Persist => 7,
        }
    }

    /// The progress label of the step.
    pub fn label(self) -> (s: String)
        ensures
            self is Root ==> s@ == "Checking if root"@,
            self is Handle ==> s@ == "Checking TPM handle"@,
            self is Policy ==> s@ == "Creating TPM PCR policy"@,
            self is Primary ==> s@ == "Creating TPM primary key"@,
            self is Object ==> s@ == "Creating TPM object"@,
            self is Load ==> s@ == "Loading object into TPM"@,
            self is Persist ==> s@ == "Making TPM object persistent"@,
    {
        match self {
            SetTpmStep::Root => String::from_str("Checking if root"),
            SetTpmStep::Handle => String::from_str("Checking TPM handle"),
            SetTpmStep::Policy => String::from_str("Creating TPM PCR policy"),
            SetTpmStep::Primary => String::from_str("Creating TPM primary key"),
            SetTpmStep::Object => String::from_str("Creating TPM object"),
            SetTpmStep::Load => String::from_str("Loading object into TPM"),
            SetTpmStep::Persist => String::from_str("Making TPM object persistent"),
        }
    }
}

impl SetTpmFailure {
    /// The display text of the failure.
    pub open spec fn spec_message(self) -> Seq<char> {
        match self {
            SetTpmFailure::Root(e) => e.spec_message(),
            SetTpmFailure::Handle(e) => e.spec_message(),
            SetTpmFailure::Policy(e) => e.spec_message(),
            SetTpmFailure::Primary(e) => e.spec_message(),
            SetTpmFailure::Object(e) => e.spec_message(),
            SetTpmFailure::Load(e) => e.spec_message(),
            SetTpmFailure::Persist(e) => e.spec_message(),
        }
    }

    /// Renders the display text of the failure.
    pub fn message(&self) -> (r: String)
        ensures
            r@ == self.spec_message(),
    {
        match self {
            SetTpmFailure::Root(e) => e.message(),
            SetTpmFailure::Handle(e) => e.message(),
            SetTpmFailure::Policy(e) => e.message(),
            SetTpmFailure::Primary(e) => e.message(),
            SetTpmFailure::Object(e) => e.message(),
            SetTpmFailure::Load(e) => e.message(),
            SetTpmFailure::Persist(e) => e.message(),
        }
    }

    /// The position of the step the failure belongs to.
    pub open spec fn spec_position(self) -> int {
        match self {
            SetTpmFailure::Root(_) => 1,
            SetTpmFailure::Handle(_) => 2,
            SetTpmFailure::Policy(_) => 3,
            SetTpmFailure::Primary(_) => 4,
            SetTpmFailure::Object(_) => 5,
            SetTpmFailure::Load(_) => 6,
            SetTpmFailure::Persist(_) => 7,
        }
    }
}

/// Whether the event reports the outside work of the given step.
pub open spec fn event_fits_set_tpm(step: SetTpmStep, event: SetTpmEvent) -> bool {
    match (step, event) {
        (SetTpmStep::Root, SetTpmEvent::Root { .. }) => true,
        (SetTpmStep::Handle, SetTpmEvent::Handle { .. }) => true,
        (SetTpmStep::Policy, SetTpmEvent::Policy { .. }) => true,
        (SetTpmStep::Primary, SetTpmEvent::Primary { .. }) => true,
        (SetTpmStep::Object, SetTpmEvent::Object { .. }) => true,
        (SetTpmStep::Load, SetTpmEvent::Load { .. }) => true,
        (SetTpmStep::Persist, SetTpmEvent::Persist { .. }) => true,
        _ => false,
    }
}

/// What one step of the provision flow decides.
pub open spec fn spec_set_tpm_step(step: SetTpmStep, event: SetTpmEvent) -> Result<
    Option<SetTpmStep>,
    SetTpmFailure,
> {
    match (step, event) {
        (SetTpmStep::Root, SetTpmEvent::Root { elevated }) => if elevated {
            Ok(Some(SetTpmStep::Handle))
        } else {
            Err(SetTpmFailure::Root(RootRequired))
        },
        (SetTpmStep::Handle, SetTpmEvent::Handle { outcome }) => match outcome {
            Ok(_) => Ok(Some(SetTpmStep::Policy)),
            Err(e) => Err(SetTpmFailure::Handle(e)),
        },
        (SetTpmStep::Policy, SetTpmEvent::Policy { report }) => if report.success {
            Ok(Some(SetTpmStep::Primary))
        } else {
            Err(SetTpmFailure::Policy(CreatePolicyError { response: report }))
        },
        (SetTpmStep::Primary, SetTpmEvent::Primary { report }) => if report.success {
            Ok(Some(SetTpmStep::Object))
        } else {
            Err(SetTpmFailure::Primary(CreatePrimaryError { response: report }))
        },
        (SetTpmStep::Object, SetTpmEvent::Object { outcome }) => match outcome {
            Ok(_) => Ok(Some(SetTpmStep::Load)),
            Err(e) => Err(SetTpmFailure::Object(e)),
        },
        (SetTpmStep::Load, SetTpmEvent::Load { report }) => if report.success {
            Ok(Some(SetTpmStep::Persist))
        } else {
            Err(SetTpmFailure::Load(LoadError { response: report }))
        },
        (SetTpmStep::Persist, SetTpmEvent::Persist { outcome }) => match outcome {
            Ok(_) => Ok(None),
            Err(e) => Err(SetTpmFailure::Persist(e)),
        },
        _ => Ok(None),
    }
}

/// Advances the provision flow by one step.
pub fn set_tpm_command(step: SetTpmStep, event: SetTpmEvent) -> (r: Result<
    Option<SetTpmStep>,
    SetTpmFailure,
>)
    requires
        event_fits_set_tpm(step, event),
    ensures
        r == spec_set_tpm_step(step, event),
{
    match (step, event) {
        (SetTpmStep::Root, SetTpmEvent::Root { elevated }) => match require_root(elevated) {
            Ok(_) => Ok(Some(SetTpmStep::Handle)),
            Err(e) => Err(SetTpmFailure::Root(e)),
        },
        (SetTpmStep::Handle, SetTpmEvent::Handle { outcome }) => match outcome {
            Ok(_) => Ok(Some(SetTpmStep::Policy)),
            Err(e) => Err(SetTpmFailure::Handle(e)),
        },
        (SetTpmStep::Policy, SetTpmEvent::Policy { report }) => match create_policy(report) {
            Ok(_) => Ok(Some(SetTpmStep::Primary)),
            Err(e) => Err(SetTpmFailure::Policy(e)),
        },
        (SetTpmStep::Primary, SetTpmEvent::Primary { report }) => match create_primary(report) {
            Ok(_) => Ok(Some(SetTpmStep::Object)),
            Err(e) => Err(SetTpmFailure::Primary(e)),
        },
        (SetTpmStep::Object, SetTpmEvent::Object { outcome }) => match outcome {
            Ok(_) => Ok(Some(SetTpmStep::Load)),
            Err(e) => Err(SetTpmFailure::Object(e)),
        },
        (SetTpmStep::Load, SetTpmEvent::Load { report }) => match load_object(report) {
            Ok(_) => Ok(Some(SetTpmStep::Persist)),
            Err(e) => Err(SetTpmFailure::Load(e)),
        },
        (SetTpmStep::Persist, SetTpmEvent::Persist { outcome }) => match outcome {
            Ok(_) => Ok(None),
            Err(e) => Err(SetTpmFailure::Persist(e)),
        },
        _ => Ok(None),
    }
}

/// Law: the provision flow advances through its steps in order, only its
/// last step completes it, and a failure carries the position of the step
/// it happened at.
pub proof fn lemma_set_tpm_flow_order(step: SetTpmStep, event: SetTpmEvent)
    requires
        event_fits_set_tpm(step, event),
    ensures
        spec_set_tpm_step(step, event) matches Ok(Some(next)) ==> next.spec_position()
            == step.spec_position() + 1,
        spec_set_tpm_step(step, event) matches Ok(None) ==> step is Persist,
        spec_set_tpm_step(step, event) matches Err(f) ==> f.spec_position()
            == step.spec_position(),
{
}

} // verus!
