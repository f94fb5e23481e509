//! The mount flow: eight guard and action steps in strict order, terminal
//! on the first failure, with no retries. The flow is a state machine —
//! each call consumes the outcome of the step the flow is at and yields
//! the next step, completion, or the step's failure — so the front end
//! performs one step's outside work at a time and later steps are never
//! reached past a failure.

use vstd::prelude::*;
use vstd::string::StringExecFns;
use crate::luks::check_if_mounted::AlreadyMounted;
use crate::luks::check_if_mounted::check_if_mounted;
use crate::luks::check_mount_exists::NoMount;
use crate::luks::check_mount_exists::check_mount_exists;
use crate::luks::check_partition_exists::NoPartition;
use crate::luks::check_partition_exists::check_partition_exist;
use crate::luks::get_key::KeyError;
use crate::luks::is_luks::IsLuksError;
use crate::luks::is_luks::is_luks_partition;
use crate::luks::is_luks::spec_is_luks;
use crate::luks::is_partition_locked::PartitionUnlocked;
use crate::luks::is_partition_locked::is_partition_locked;
use crate::luks::mount_partition::MountError;
use crate::luks::mount_partition::mount_partition;
use crate::utils::is_root::RootRequired;
use crate::utils::is_root::require_root;
use crate::utils::options::Options;
use crate::utils::response::Response;

verus! {

/// How many steps the mount flow has.
pub const MOUNT_TOTAL_STEPS: u32 = 8;

/// The steps of the mount flow, in order.
#[derive(Clone, Copy, Debug, Eq, PartialEq, Structural)]
pub enum MountStep {
    /// Effective privilege must be elevated.
    Root,
    /// The device path must exist.
    Partition,
    /// The device must carry the LUKS format.
    Encrypted,
    /// The mapper device node must not exist yet.
    Locked,
    /// Assemble the key, test it, open the device.
    Unlock,
    /// The mount path must exist.
    MountPoint,
    /// The mount path must not be mounted yet.
    Mounted,
    /// Mount the mapper device.
    Mount,
}

/// The outcome of one step's outside work, fed back to the flow.
pub enum MountEvent {
    /// Whether the effective user is root.
    Root { elevated: bool },
    /// Whether the device path exists.
    Partition { partition_present: bool },
    /// What the format probe reported.
    Encrypted { probe: Response },
    /// Whether the mapper device node exists.
    Locked { mapper_present: bool },
    /// How assembling, testing and applying the key went.
    Unlock { outcome: Result<(), KeyError> },
    /// Whether the mount path exists.
    MountPoint { mount_point_present: bool },
    /// Whether the mount-table query found the mount path.
    Mounted { query_success: bool },
    /// What the mount action reported.
    Mount { outcome: Response },
}

/// The failure a mount-flow step stopped at, carrying that step's
/// diagnostics.
#[derive(Clone, Debug, Eq, PartialEq)]
pub enum MountFailure {
    /// The privilege guard failed.
    Root(RootRequired),
    /// The device-existence guard failed.
    Partition(NoPartition),
    /// The format guard failed.
    Encrypted(IsLuksError),
    /// The lock-state guard failed.
    Locked(PartitionUnlocked),
    /// The unlock failed.
    Unlock(KeyError),
    /// The mount-point guard failed.
    MountPoint(NoMount),
    /// The mount-state guard failed.
    Mounted(AlreadyMounted),
    /// The mount action failed.
    Mount(MountError),
}

impl MountStep {
    /// The position of the step in the flow, starting at one.
    pub open spec fn spec_position(self) -> int {
        match self {
            MountStep::Root => 1,
            MountStep::Partition => 2,
            MountStep::Encrypted => 3,
            MountStep::Locked => 4,
            MountStep::Unlock => 5,
            MountStep::MountPoint => 6,
            MountStep::Mounted => 7,
            MountStep::Mount => 8,
        }
    }

    /// The position of the step in the flow, starting at one.
    pub fn position(self) -> (n: u32)
        ensures
            n == self.spec_position(),
    {
        match self {
            MountStep::Root => 1,
            MountStep::Partition => 2,
            MountStep::Encrypted => 3,
            MountStep::Locked => 4,
            MountStep::Unlock => 5,
            MountStep::MountPoint => 6,
            MountStep::Mounted => 7,
            MountStep::Mount => 8,
        }
    }

    /// The progress label of the step.
    pub fn label(self) -> (s: String)
        ensures
            self is Root ==> s@ == "Checking if root"@,
            self is Partition ==> s@ == "Checking if partition exists"@,
            self is Encrypted ==> s@ == "Checking if partition is encrypted with LUKS"@,
            self is Locked ==> s@ == "Checking if partition is already unlocked"@,
            self is Unlock ==> s@ == "Unlocking LUKS partition"@,
            self is MountPoint ==> s@ == "Checking mount point exists"@,
            self is Mounted ==> s@ == "Checking if already mounted"@,
            self is Mount ==> s@ == "Mounting partition"@,
    {
        match self {
            MountStep::Root => String::from_str("Checking if root"),
            MountStep::Partition => String::from_str("Checking if partition exists"),
            MountStep::Encrypted => String::from_str(
                "Checking if partition is encrypted with LUKS",
            ),
            MountStep::Locked => String::from_str("Checking if partition is already unlocked"),
            MountStep::Unlock => String::from_str("Unlocking LUKS partition"),
            MountStep::MountPoint => String::from_str("Checking mount point exists"),
            MountStep::Mounted => String::from_str("Checking if already mounted"),
            MountStep::Mount => String::from_str("Mounting partition"),
        }
    }
}

impl MountFailure {
    /// The display text of the failure.
    pub open spec fn spec_message(self) -> Seq<char> {
        match self {
            MountFailure::Root(e) => e.spec_message(),
            MountFailure::Partition(e) => e.spec_message(),
            MountFailure::Encrypted(e) => e.spec_message(),
            MountFailure::Locked(e) => e.spec_message(),
            MountFailure::Unlock(e) => e.spec_message(),
            MountFailure::MountPoint(e) => e.spec_message(),
            MountFailure::Mounted(e) => e.spec_message(),
            MountFailure::Mount(e) => e.spec_message(),
        }
    }

    /// Renders the display text of the failure.
    pub fn message(&self) -> (r: String)
        ensures
            r@ == self.spec_message(),
    {
        match self {
            MountFailure::Root(e) => e.message(),
            MountFailure::Partition(e) => e.message(),
            MountFailure::Encrypted(e) => e.message(),
            MountFailure::Locked(e) => e.message(),
            MountFailure::Unlock(e) => e.message(),
            MountFailure::MountPoint(e) => e.message(),
            MountFailure::Mounted(e) => e.message(),
            MountFailure::Mount(e) => e.message(),
        }
    }

    /// The position of the step the failure belongs to.
    pub open spec fn spec_position(self) -> int {
        match self {
            MountFailure::Root(_) => 1,
            MountFailure::Partition(_) => 2,
            MountFailure::Encrypted(_) => 3,
            MountFailure::Locked(_) => 4,
            MountFailure::Unlock(_) => 5,
            MountFailure::MountPoint(_) => 6,
            MountFailure::Mounted(_) => 7,
            MountFailure::Mount(_) => 8,
        }
    }
}

/// Whether the event reports the outside work of the given step.
pub open spec fn event_fits_mount(step: MountStep, event: MountEvent) -> bool {
    match (step, event) {
        (MountStep::Root, MountEvent::Root { .. }) => true,
        (MountStep::Partition, MountEvent::Partition { .. }) => true,
        (MountStep::Encrypted, MountEvent::Encrypted { .. }) => true,
        (MountStep::Locked, MountEvent::Locked { .. }) => true,
        (MountStep::Unlock, MountEvent::Unlock { .. }) => true,
        (MountStep::MountPoint, MountEvent::MountPoint { .. }) => true,
        (MountStep::Mounted, MountEvent::Mounted { .. }) => true,
        (MountStep::Mount, MountEvent::Mount { .. }) => true,
        _ => false,
    }
}

/// What one step of the mount flow decides: the next step on success,
/// completion after the last step, the step's failure — with that step's
/// diagnostics — otherwise.
pub open spec fn spec_mount_step(options: Options, step: MountStep, event: MountEvent) -> Result<
    Option<MountStep>,
    MountFailure,
> {
    match (step, event) {
        (MountStep::Root, MountEvent::Root { elevated }) => if elevated {
            Ok(Some(MountStep::Partition))
        } else {
            Err(MountFailure::Root(RootRequired))
        },
        (MountStep::Partition, MountEvent::Partition { partition_present }) => if partition_present {
            Ok(Some(MountStep::Encrypted))
        } else {
            Err(MountFailure::Partition(NoPartition { path: options.partition_path }))
        },
        (MountStep::Encrypted, MountEvent::Encrypted { probe }) => match spec_is_luks(probe) {
            Ok(_) => Ok(Some(MountStep::Locked)),
            Err(e) => Err(MountFailure::Encrypted(e)),
        },
        (MountStep::Locked, MountEvent::Locked { mapper_present }) => if mapper_present {
            Err(MountFailure::Locked(PartitionUnlocked))
        } else {
            Ok(Some(MountStep::Unlock))
        },
        (MountStep::Unlock, MountEvent::Unlock { outcome }) => match outcome {
            Ok(_) => Ok(Some(MountStep::MountPoint)),
            Err(e) => Err(MountFailure::Unlock(e)),
        },
        (MountStep::MountPoint, MountEvent::MountPoint { mount_point_present }) => if mount_point_present {
            Ok(Some(MountStep::Mounted))
        } else {
            Err(MountFailure::MountPoint(NoMount { path: options.mount_path }))
        },
        (MountStep::Mounted, MountEvent::Mounted { query_success }) => if query_success {
            Err(MountFailure::Mounted(AlreadyMounted))
        } else {
            Ok(Some(MountStep::Mount))
        },
        (MountStep::Mount, MountEvent::Mount { outcome }) => if outcome.success {
            Ok(None)
        } else {
            Err(MountFailure::Mount(MountError { response: outcome }))
        },
        _ => Ok(None),
    }
}

/// Advances the mount flow by one step: consumes the outcome of the step
/// the flow is at and yields the next step, `None` on completion, or the
/// step's failure — on which the front end stops, so later steps are
/// never performed.
pub fn mount_command(options: &Options, step: MountStep, event: MountEvent) -> (r: Result<
    Option<MountStep>,
    MountFailure,
>)
    requires
        event_fits_mount(step, event),
    ensures
        r == spec_mount_step(*options, step, event),
{
    match (step, event) {
        (MountStep::Root, MountEvent::Root { elevated }) => match require_root(elevated) {
            Ok(_) => Ok(Some(MountStep::Partition)),
            Err(e) => Err(MountFailure::Root(e)),
        },
        (MountStep::Partition, MountEvent::Partition { partition_present }) => match
        check_partition_exist(options, partition_present) {
            Ok(_) => Ok(Some(MountStep::Encrypted)),
            Err(e) => Err(MountFailure::Partition(e)),
        },
        (MountStep::Encrypted, MountEvent::Encrypted { probe }) => match is_luks_partition(probe) {
            Ok(_) => Ok(Some(MountStep::Locked)),
            Err(e) => Err(MountFailure::Encrypted(e)),
        },
        (MountStep::Locked, MountEvent::Locked { mapper_present }) => match is_partition_locked(
            mapper_present,
        ) {
            Ok(_) => Ok(Some(MountStep::Unlock)),
            Err(e) => Err(MountFailure::Locked(e)),
        },
        (MountStep::Unlock, MountEvent::Unlock { outcome }) => match outcome {
            Ok(_) => Ok(Some(MountStep::MountPoint)),
            Err(e) => Err(MountFailure::Unlock(e)),
        },
        (MountStep::MountPoint, MountEvent::MountPoint { mount_point_present }) => match
        check_mount_exists(options, mount_point_present) {
            Ok(_) => Ok(Some(MountStep::Mounted)),
            Err(e) => Err(MountFailure::MountPoint(e)),
        },
        (MountStep::Mounted, MountEvent::Mounted { query_success }) => match check_if_mounted(
            query_success,
        ) {
            Ok(_) => Ok(Some(MountStep::Mount)),
            Err(e) => Err(MountFailure::Mounted(e)),
        },
        (MountStep::Mount, MountEvent::Mount { outcome }) => match mount_partition(outcome) {
            Ok(_) => Ok(None),
            Err(e) => Err(MountFailure::Mount(e)),
        },
        _ => Ok(None),
    }
}

/// What a whole run of the mount flow makes of a queue of step outcomes:
/// each outcome is consumed by the step the flow is at, until the flow
/// completes, fails, or runs out of outcomes.
pub open spec fn spec_mount_run(options: Options, step: MountStep, events: Seq<MountEvent>) -> Option<
    Result<(), MountFailure>,
>
    decreases events.len(),
{
    if events.len() == 0 {
        None
    } else {
        match spec_mount_step(options, step, events[0]) {
            Ok(Some(next)) => spec_mount_run(options, next, events.drop_first()),
            Ok(None) => Some(Ok(())),
            Err(f) => Some(Err(f)),
        }
    }
}

/// Law: a passed step only hands the rest of the queue to the next step.
pub proof fn lemma_mount_run_advances(
    options: Options,
    step: MountStep,
    event: MountEvent,
    rest: Seq<MountEvent>,
    next: MountStep,
)
    requires
        spec_mount_step(options, step, event) == Ok::<Option<MountStep>, MountFailure>(Some(next)),
    ensures
        spec_mount_run(options, step, seq![event] + rest) == spec_mount_run(options, next, rest),
{
    let events = seq![event] + rest;
    assert(events[0] == event);
    assert(events.drop_first() =~= rest);
}

/// Law: the flow is fail-fast — once a step fails, the whole run is that
/// failure, and the outcomes queued behind it are never consumed.
pub proof fn lemma_mount_run_fail_fast(
    options: Options,
    step: MountStep,
    event: MountEvent,
    rest: Seq<MountEvent>,
    failure: MountFailure,
)
    requires
        spec_mount_step(options, step, event) == Err::<Option<MountStep>, MountFailure>(failure),
    ensures
        spec_mount_run(options, step, seq![event] + rest) == Some(Err::<(), MountFailure>(failure)),
{
    let events = seq![event] + rest;
    assert(events[0] == event);
}

/// Law: the mount flow advances through its steps in order — a passed
/// step hands over to the step one position later, only the last step
/// completes the flow, and a failure carries the position of exactly the
/// step it happened at.
pub proof fn lemma_mount_flow_order(options: Options, step: MountStep, event: MountEvent)
    requires
        event_fits_mount(step, event),
    ensures
        spec_mount_step(options, step, event) matches Ok(Some(next)) ==> next.spec_position()
            == step.spec_position() + 1,
        spec_mount_step(options, step, event) matches Ok(None) ==> step is Mount,
        spec_mount_step(options, step, event) matches Err(f) ==> f.spec_position()
            == step.spec_position(),
{
}

} // verus!
