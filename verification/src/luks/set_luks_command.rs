//! The add-key flow: privilege, device and format guards, then appending
//! a new key to the encrypted header's key slots.

use vstd::prelude::*;
use vstd::string::StringExecFns;
use crate::luks::check_partition_exists::NoPartition;
use crate::luks::check_partition_exists::check_partition_exist;
use crate::luks::get_key::KeyError;
use crate::luks::is_luks::IsLuksError;
use crate::luks::is_luks::is_luks_partition;
use crate::luks::is_luks::spec_is_luks;
use crate::utils::is_root::RootRequired;
use crate::utils::is_root::require_root;
use crate::utils::options::Options;
use crate::utils::response::Response;

verus! {

/// How many steps the add-key flow has.
pub const SET_LUKS_TOTAL_STEPS: u32 = 4;

/// The steps of the add-key flow, in order.
#[derive(Clone, Copy, Debug, Eq, PartialEq, Structural)]
pub enum SetLuksStep {
    /// Effective privilege must be elevated.
    Root,
    /// The device path must exist.
    Partition,
    /// The device must carry the LUKS format.
    Encrypted,
    /// Assemble the key, refuse one the header already accepts, append it.
    AddKey,
}

/// The outcome of one step's outside work, fed back to the flow.
pub enum SetLuksEvent {
    /// Whether the effective user is root.
    Root { elevated: bool },
    /// Whether the device path exists.
    Partition { partition_present: bool },
    /// What the format probe reported.
    Encrypted { probe: Response },
    /// How assembling and appending the key went.
    AddKey { outcome: Result<(), KeyError> },
}

/// The failure an add-key-flow step stopped at, carrying that step's
/// diagnostics.
#[derive(Clone, Debug, Eq, PartialEq)]
pub enum SetLuksFailure {
    /// The privilege guard failed.
    Root(RootRequired),
    /// The device-existence guard failed.
    Partition(NoPartition),
    /// The format guard failed.
    Encrypted(IsLuksError),
    /// Assembling or appending the key failed.
    AddKey(KeyError),
}

impl SetLuksStep {
    /// The position of the step in the flow, starting at one.
    pub open spec fn spec_position(self) -> int {
        match self {
            SetLuksStep::Root => 1,
            SetLuksStep::Partition => 2,
            SetLuksStep::Encrypted => 3,
            SetLuksStep::AddKey => 4,
        }
    }

    /// The position of the step in the flow, starting at one.
    pub fn position(self) -> (n: u32)
        ensures
            n == self.spec_position(),
    {
        match self {
            SetLuksStep::Root => 1,
            SetLuksStep::Partition => 2,
            SetLuksStep::Encrypted => 3,
            SetLuksStep::AddKey => 4,
        }
    }

    /// The progress label of the step.
    pub fn label(self) -> (s: String)
        ensures
            self is Root ==> s@ == "Checking if root"@,
            self is Partition ==> s@ == "Checking if partition exists"@,
            self is Encrypted ==> s@ == "Checking if partition is encrypted with LUKS"@,
            self is AddKey ==> s@ == "Adding LUKS key"@,
    {
        match self {
            SetLuksStep::Root => String::from_str("Checking if root"),
            SetLuksStep::Partition => String::from_str("Checking if partition exists"),
            SetLuksStep::Encrypted => String::from_str(
                "Checking if partition is encrypted with LUKS",
            ),
            SetLuksStep::AddKey => String::from_str("Adding LUKS key"),
        }
    }
}

impl SetLuksFailure {
    /// The display text of the failure.
    pub open spec fn spec_message(self) -> Seq<char> {
        match self {
            SetLuksFailure::Root(e) => e.spec_message(),
            SetLuksFailure::Partition(e) => e.spec_message(),
            SetLuksFailure::Encrypted(e) => e.spec_message(),
            SetLuksFailure::AddKey(e) => e.spec_message(),
        }
    }

    /// Renders the display text of the failure.
    pub fn message(&self) -> (r: String)
        ensures
            r@ == self.spec_message(),
    {
        match self {
            SetLuksFailure::Root(e) => e.message(),
            SetLuksFailure::Partition(e) => e.message(),
            SetLuksFailure::Encrypted(e) => e.message(),
            SetLuksFailure::AddKey(e) => e.message(),
        }
    }

    /// The position of the step the failure belongs to.
    pub open spec fn spec_position(self) -> int {
        match self {
            SetLuksFailure::Root(_) => 1,
            SetLuksFailure::Partition(_) => 2,
            SetLuksFailure::Encrypted(_) => 3,
            SetLuksFailure::AddKey(_) => 4,
        }
    }
}

/// Whether the event reports the outside work of the given step.
pub open spec fn event_fits_set_luks(step: SetLuksStep, event: SetLuksEvent) -> bool {
    match (step, event) {
        (SetLuksStep::Root, SetLuksEvent::Root { .. }) => true,
        (SetLuksStep::Partition, SetLuksEvent::Partition { .. }) => true,
        (SetLuksStep::Encrypted, SetLuksEvent::Encrypted { .. }) => true,
        (SetLuksStep::AddKey, SetLuksEvent::AddKey { .. }) => true,
        _ => false,
    }
}

/// What one step of the add-key flow decides.
pub open spec fn spec_set_luks_step(options: Options, step: SetLuksStep, event: SetLuksEvent) -> Result<
    Option<SetLuksStep>,
    SetLuksFailure,
> {
    match (step, event) {
        (SetLuksStep::Root, SetLuksEvent::Root { elevated }) => if elevated {
            Ok(Some(SetLuksStep::Partition))
        } else {
            Err(SetLuksFailure::Root(RootRequired))
        },
        (SetLuksStep::Partition, SetLuksEvent::Partition { partition_present }) => if partition_present {
            Ok(Some(SetLuksStep::Encrypted))
        } else {
            Err(SetLuksFailure::Partition(NoPartition { path: options.partition_path }))
        },
        (SetLuksStep::Encrypted, SetLuksEvent::Encrypted { probe }) => match spec_is_luks(probe) {
            Ok(_) => Ok(Some(SetLuksStep::AddKey)),
            Err(e) => Err(SetLuksFailure::Encrypted(e)),
        },
        (SetLuksStep::AddKey, SetLuksEvent::AddKey { outcome }) => match outcome {
            Ok(_) => Ok(None),
            Err(e) => Err(SetLuksFailure::AddKey(e)),
        },
        _ => Ok(None),
    }
}

/// Advances the add-key flow by one step.
pub fn set_luks_command(options: &Options, step: SetLuksStep, event: SetLuksEvent) -> (r: Result<
    Option<SetLuksStep>,
    SetLuksFailure,
>)
    requires
        event_fits_set_luks(step, event),
    ensures
        r == spec_set_luks_step(*options, step, event),
{
    match (step, event) {
        (SetLuksStep::Root, SetLuksEvent::Root { elevated }) => match require_root(elevated) {
            Ok(_) => Ok(Some(SetLuksStep::Partition)),
            Err(e) => Err(SetLuksFailure::Root(e)),
        },
        (SetLuksStep::Partition, SetLuksEvent::Partition { partition_present }) => match
        check_partition_exist(options, partition_present) {
            Ok(_) => Ok(Some(SetLuksStep::Encrypted)),
            Err(e) => Err(SetLuksFailure::Partition(e)),
        },
        (SetLuksStep::Encrypted, SetLuksEvent::Encrypted { probe }) => match is_luks_partition(
            probe,
        ) {
            Ok(_) => Ok(Some(SetLuksStep::AddKey)),
            Err(e) => Err(SetLuksFailure::Encrypted(e)),
        },
        (SetLuksStep::AddKey, SetLuksEvent::AddKey { outcome }) => match outcome {
            Ok(_) => Ok(None),
            Err(e) => Err(SetLuksFailure::AddKey(e)),
        },
        _ => Ok(None),
    }
}

/// Law: the add-key flow advances through its steps in order, only its
/// last step completes it, and a failure carries the position of the step
/// it happened at.
pub proof fn lemma_set_luks_flow_order(options: Options, step: SetLuksStep, event: SetLuksEvent)
    requires
        event_fits_set_luks(step, event),
    ensures
        spec_set_luks_step(options, step, event) matches Ok(Some(next)) ==> next.spec_position()
            == step.spec_position() + 1,
        spec_set_luks_step(options, step, event) matches Ok(None) ==> step is AddKey,
        spec_set_luks_step(options, step, event) matches Err(f) ==> f.spec_position()
            == step.spec_position(),
{
}

} // verus!
