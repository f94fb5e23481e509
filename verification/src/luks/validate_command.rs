//! The validate flow: privilege check, then key assembly and dry-run
//! test, with nothing unlocked or mounted.

use vstd::prelude::*;
use vstd::string::StringExecFns;
use crate::luks::get_key::KeyError;
use crate::utils::is_root::RootRequired;
use crate::utils::is_root::require_root;

verus! {

/// How many steps the validate flow has.
pub const VALIDATE_TOTAL_STEPS: u32 = 2;

/// The steps of the validate flow, in order.
#[derive(Clone, Copy, Debug, Eq, PartialEq, Structural)]
pub enum ValidateStep {
    /// Effective privilege must be elevated.
    Root,
    /// Assemble the key and test it against the header.
    Key,
}

/// The outcome of one step's outside work, fed back to the flow.
pub enum ValidateEvent {
    /// Whether the effective user is root.
    Root { elevated: bool },
    /// How assembling and testing the key went.
    Key { outcome: Result<(), KeyError> },
}

/// The failure a validate-flow step stopped at.
#[derive(Clone, Copy, Debug, Eq, PartialEq, Structural)]
pub enum ValidateFailure {
    /// The privilege guard failed.
    Root(RootRequired),
    /// Assembling or testing the key failed.
    Key(KeyError),
}

impl ValidateStep {
    /// The position of the step in the flow, starting at one.
    pub open spec fn spec_position(self) -> int {
        match self {
            ValidateStep::Root => 1,
            ValidateStep::Key => 2,
        }
    }

    /// The position of the step in the flow, starting at one.
    pub fn position(self) -> (n: u32)
        ensures
            n == self.spec_position(),
    {
        match self {
            ValidateStep::Root => 1,
            ValidateStep::Key => 2,
        }
    }

    /// The progress label of the step.
    pub fn label(self) -> (s: String)
        ensures
            self is Root ==> s@ == "Checking if root"@,
            self is Key ==> s@ == "Validating key"@,
    {
        match self {
            ValidateStep::Root => String::from_str("Checking if root"),
            ValidateStep::Key => String::from_str("Validating key"),
        }
    }
}

impl ValidateFailure {
    /// The display text of the failure.
    pub open spec fn spec_message(self) -> Seq<char> {
        match self {
            ValidateFailure::Root(e) => e.spec_message(),
            ValidateFailure::Key(e) => e.spec_message(),
        }
    }

    /// Renders the display text of the failure.
    pub fn message(&self) -> (r: String)
        ensures
            r@ == self.spec_message(),
    {
        match self {
            ValidateFailure::Root(e) => e.message(),
            ValidateFailure::Key(e) => e.message(),
        }
    }

    /// The position of the step the failure belongs to.
    pub open spec fn spec_position(self) -> int {
        match self {
            ValidateFailure::Root(_) => 1,
            ValidateFailure::Key(_) => 2,
        }
    }
}

/// Whether the event reports the outside work of the given step.
pub open spec fn event_fits_validate(step: ValidateStep, event: ValidateEvent) -> bool {
    match (step, event) {
        (ValidateStep::Root, ValidateEvent::Root { .. }) => true,
        (ValidateStep::Key, ValidateEvent::Key { .. }) => true,
        _ => false,
    }
}

/// What one step of the validate flow decides.
pub open spec fn spec_validate_step(step: ValidateStep, event: ValidateEvent) -> Result<
    Option<ValidateStep>,
    ValidateFailure,
> {
    match (step, event) {
        (ValidateStep::Root, ValidateEvent::Root { elevated }) => if elevated {
            Ok(Some(ValidateStep::Key))
        } else {
            Err(ValidateFailure::Root(RootRequired))
        },
        (ValidateStep::Key, ValidateEvent::Key { outcome }) => match outcome {
            Ok(_) => Ok(None),
            Err(e) => Err(ValidateFailure::Key(e)),
        },
        _ => Ok(None),
    }
}

/// Advances the validate flow by one step.
pub fn validate_command(step: ValidateStep, event: ValidateEvent) -> (r: Result<
    Option<ValidateStep>,
    ValidateFailure,
>)
    requires
        event_fits_validate(step, event),
    ensures
        r == spec_validate_step(step, event),
{
    match (step, event) {
        (ValidateStep::Root, ValidateEvent::Root { elevated }) => match require_root(elevated) {
            Ok(_) => Ok(Some(ValidateStep::Key)),
            Err(e) => Err(ValidateFailure::Root(e)),
        },
        (ValidateStep::Key, ValidateEvent::Key { outcome }) => match outcome {
            Ok(_) => Ok(None),
            Err(e) => Err(ValidateFailure::Key(e)),
        },
        _ => Ok(None),
    }
}

/// Law: the validate flow advances through its steps in order, only its
/// last step completes it, and a failure carries the position of the step
/// it happened at.
pub proof fn lemma_validate_flow_order(step: ValidateStep, event: ValidateEvent)
    requires
        event_fits_validate(step, event),
    ensures
        spec_validate_step(step, event) matches Ok(Some(next)) ==> next.spec_position()
            == step.spec_position() + 1,
        spec_validate_step(step, event) matches Ok(None) ==> step is Key,
        spec_validate_step(step, event) matches Err(f) ==> f.spec_position()
            == step.spec_position(),
{
}

} // verus!
