//! Tests of the command flows: step order, fail-fast behaviour, the
//! outcome classification of each guard, and the diagnostics a failure
//! carries.

use mount_luks::luks::check_if_mounted::check_if_mounted;
use mount_luks::luks::check_if_mounted::AlreadyMounted;
use mount_luks::luks::check_key::check_key;
use mount_luks::luks::check_mount_exists::check_mount_exists;
use mount_luks::luks::check_mount_exists::NoMount;
use mount_luks::luks::check_partition_exists::check_partition_exist;
use mount_luks::luks::check_partition_exists::NoPartition;
use mount_luks::luks::get_key::KeyError;
use mount_luks::luks::is_luks::is_luks_partition;
use mount_luks::luks::is_luks::IsLuksError;
use mount_luks::luks::is_partition_locked::is_partition_locked;
use mount_luks::luks::is_partition_locked::PartitionUnlocked;
use mount_luks::luks::mount_command::mount_command;
use mount_luks::luks::mount_command::MountEvent;
use mount_luks::luks::mount_command::MountFailure;
use mount_luks::luks::mount_command::MountStep;
use mount_luks::luks::mount_partition::mount_partition;
use mount_luks::luks::mount_partition::MountError;
use mount_luks::luks::set_luks_command::set_luks_command;
use mount_luks::luks::set_luks_command::SetLuksEvent;
use mount_luks::luks::set_luks_command::SetLuksFailure;
use mount_luks::luks::set_luks_command::SetLuksStep;
use mount_luks::luks::validate_command::validate_command;
use mount_luks::luks::validate_command::ValidateEvent;
use mount_luks::luks::validate_command::ValidateFailure;
use mount_luks::luks::validate_command::ValidateStep;
use mount_luks::tpm::set_tpm_command::set_tpm_command;
use mount_luks::tpm::set_tpm_command::SetTpmEvent;
use mount_luks::tpm::set_tpm_command::SetTpmStep;
use mount_luks::utils::is_root::require_root;
use mount_luks::utils::is_root::RootRequired;
use mount_luks::utils::options::Options;
use mount_luks::utils::response::Response;

fn options() -> Options {
    Options {
        partition_path: "/dev/sda3".to_owned(),
        mapper_name: "cryptroot".to_owned(),
        mount_path: "/mnt/secure".to_owned(),
        key_path: None,
        tpm_handle: None,
        key_prompt: None,
    }
}

fn silent_failure() -> Response {
    Response {
        error: None,
        output: None,
        success: false,
        code: Some(1),
    }
}

fn success_report() -> Response {
    Response {
        error: None,
        output: None,
        success: true,
        code: Some(0),
    }
}

#[test]
fn mount_flow_stops_at_step_two_for_missing_device() {
    let options = options();

    // Step 1 passes: the caller is elevated.
    let after_root = mount_command(&options, MountStep::Root, MountEvent::Root { elevated: true })
        .expect("the privilege guard passes");
    assert_eq!(after_root, Some(MountStep::Partition));

    // Step 2 fails: the device path is absent. The flow yields the
    // failure, so the driver never performs the work of steps 3 to 8.
    let failure = mount_command(
        &options,
        MountStep::Partition,
        MountEvent::Partition {
            partition_present: false,
        },
    )
    .expect_err("a missing device stops the flow");
    assert_eq!(
        failure,
        MountFailure::Partition(NoPartition {
            path: "/dev/sda3".to_owned()
        })
    );
    assert_eq!(failure.message(), "Parition does not exist");
}

#[test]
fn mount_flow_walks_all_eight_steps_in_order() {
    let options = options();
    let mut step = MountStep::Root;
    let mut seen = Vec::new();
    seen.push(step.position());
    let mut current = mount_command(&options, step, MountEvent::Root { elevated: true })
        .expect("every step passes");
    while let Some(s) = current {
        step = s;
        seen.push(step.position());
        let event = match step {
            MountStep::Root => MountEvent::Root { elevated: true },
            MountStep::Partition => MountEvent::Partition {
                partition_present: true,
            },
            MountStep::Encrypted => MountEvent::Encrypted {
                probe: success_report(),
            },
            MountStep::Locked => MountEvent::Locked {
                mapper_present: false,
            },
            MountStep::Unlock => MountEvent::Unlock { outcome: Ok(()) },
            MountStep::MountPoint => MountEvent::MountPoint {
                mount_point_present: true,
            },
            MountStep::Mounted => MountEvent::Mounted {
                query_success: false,
            },
            MountStep::Mount => MountEvent::Mount {
                outcome: success_report(),
            },
        };
        current = mount_command(&options, step, event).expect("every step passes");
    }
    assert_eq!(seen, vec![1, 2, 3, 4, 5, 6, 7, 8]);
}

#[test]
fn mount_flow_mount_state_guard() {
    let options = options();

    // A zero exit from the mount-table query means the path is mounted.
    let failure = mount_command(
        &options,
        MountStep::Mounted,
        MountEvent::Mounted { query_success: true },
    )
    .expect_err("a mounted path stops the flow");
    assert_eq!(failure, MountFailure::Mounted(AlreadyMounted));

    // A non-zero exit means it is not mounted, and the flow moves on.
    let next = mount_command(
        &options,
        MountStep::Mounted,
        MountEvent::Mounted {
            query_success: false,
        },
    )
    .expect("an unmounted path passes");
    assert_eq!(next, Some(MountStep::Mount));
}

#[test]
fn mount_flow_failures_carry_diagnostics() {
    let options = options();

    let failure = mount_command(
        &options,
        MountStep::MountPoint,
        MountEvent::MountPoint {
            mount_point_present: false,
        },
    )
    .expect_err("a missing mount point stops the flow");
    assert_eq!(
        failure,
        MountFailure::MountPoint(NoMount {
            path: "/mnt/secure".to_owned()
        })
    );

    let noisy = Response {
        error: Some("mount: permission denied".to_owned()),
        output: None,
        success: false,
        code: Some(32),
    };
    let failure = mount_command(
        &options,
        MountStep::Mount,
        MountEvent::Mount {
            outcome: noisy.clone(),
        },
    )
    .expect_err("a failed mount stops the flow");
    assert_eq!(failure, MountFailure::Mount(MountError { response: noisy }));
}

#[test]
fn mount_flow_labels() {
    assert_eq!(MountStep::Root.label(), "Checking if root");
    assert_eq!(MountStep::Partition.label(), "Checking if partition exists");
    assert_eq!(
        MountStep::Encrypted.label(),
        "Checking if partition is encrypted with LUKS"
    );
    assert_eq!(
        MountStep::Locked.label(),
        "Checking if partition is already unlocked"
    );
    assert_eq!(MountStep::Unlock.label(), "Unlocking LUKS partition");
    assert_eq!(MountStep::MountPoint.label(), "Checking mount point exists");
    assert_eq!(MountStep::Mounted.label(), "Checking if already mounted");
    assert_eq!(MountStep::Mount.label(), "Mounting partition");
}

#[test]
fn validate_flow_checks_root_then_key() {
    let next = validate_command(ValidateStep::Root, ValidateEvent::Root { elevated: true })
        .expect("the privilege guard passes");
    assert_eq!(next, Some(ValidateStep::Key));

    let done = validate_command(ValidateStep::Key, ValidateEvent::Key { outcome: Ok(()) })
        .expect("a valid key completes the flow");
    assert_eq!(done, None);

    let failure = validate_command(
        ValidateStep::Key,
        ValidateEvent::Key {
            outcome: Err(KeyError::InvalidKey),
        },
    )
    .expect_err("a rejected key stops the flow");
    assert_eq!(failure, ValidateFailure::Key(KeyError::InvalidKey));
}

#[test]
fn validate_flow_requires_root() {
    let failure = validate_command(ValidateStep::Root, ValidateEvent::Root { elevated: false })
        .expect_err("an unprivileged caller stops the flow");
    assert_eq!(failure, ValidateFailure::Root(RootRequired));
    assert_eq!(failure.message(), "Root is required");
}

#[test]
fn set_luks_flow_refuses_existing_key() {
    let options = options();
    let next = set_luks_command(&options, SetLuksStep::Root, SetLuksEvent::Root { elevated: true })
        .expect("the privilege guard passes");
    assert_eq!(next, Some(SetLuksStep::Partition));

    let failure = set_luks_command(
        &options,
        SetLuksStep::AddKey,
        SetLuksEvent::AddKey {
            outcome: Err(KeyError::Exists),
        },
    )
    .expect_err("a key the header already accepts is refused");
    assert_eq!(failure, SetLuksFailure::AddKey(KeyError::Exists));
    assert_eq!(failure.message(), "Key already exists");
}

#[test]
fn set_tpm_flow_walks_all_seven_steps_in_order() {
    let mut positions = vec![SetTpmStep::Root.position()];
    let mut current = set_tpm_command(SetTpmStep::Root, SetTpmEvent::Root { elevated: true })
        .expect("the privilege guard passes");
    while let Some(step) = current {
        positions.push(step.position());
        let event = match step {
            SetTpmStep::Root => SetTpmEvent::Root { elevated: true },
            SetTpmStep::Handle => SetTpmEvent::Handle { outcome: Ok(()) },
            SetTpmStep::Policy => SetTpmEvent::Policy {
                report: success_report(),
            },
            SetTpmStep::Primary => SetTpmEvent::Primary {
                report: success_report(),
            },
            SetTpmStep::Object => SetTpmEvent::Object { outcome: Ok(()) },
            SetTpmStep::Load => SetTpmEvent::Load {
                report: success_report(),
            },
            SetTpmStep::Persist => SetTpmEvent::Persist { outcome: Ok(()) },
        };
        current = set_tpm_command(step, event).expect("every step passes");
    }
    assert_eq!(positions, vec![1, 2, 3, 4, 5, 6, 7]);
}

#[test]
fn guard_classifiers() {
    let options = options();
    assert_eq!(require_root(false), Err(RootRequired));
    assert_eq!(require_root(true), Ok(()));
    assert_eq!(
        check_partition_exist(&options, false),
        Err(NoPartition {
            path: "/dev/sda3".to_owned()
        })
    );
    assert_eq!(check_partition_exist(&options, true), Ok(()));
    assert_eq!(
        check_mount_exists(&options, false),
        Err(NoMount {
            path: "/mnt/secure".to_owned()
        })
    );
    assert_eq!(check_mount_exists(&options, true), Ok(()));
    assert_eq!(is_partition_locked(true), Err(PartitionUnlocked));
    assert_eq!(is_partition_locked(false), Ok(()));
    assert_eq!(check_if_mounted(true), Err(AlreadyMounted));
    assert_eq!(check_if_mounted(false), Ok(()));
    assert_eq!(check_key(false), Err(KeyError::InvalidKey));
    assert_eq!(check_key(true), Ok(()));
    assert_eq!(
        mount_partition(silent_failure()),
        Err(MountError {
            response: silent_failure()
        })
    );
    assert_eq!(mount_partition(success_report()), Ok(()));
}

#[test]
fn format_probe_classification() {
    // A silent non-zero exit is the "not formatted" signal.
    assert_eq!(
        is_luks_partition(silent_failure()),
        Err(IsLuksError::NotLuks)
    );
    // A noisy non-zero exit is unexpected and keeps the probe's report.
    let noisy = Response {
        error: Some("device busy".to_owned()),
        output: None,
        success: false,
        code: Some(4),
    };
    assert_eq!(
        is_luks_partition(noisy.clone()),
        Err(IsLuksError::Unexpected { response: noisy })
    );
    // A zero exit passes.
    assert_eq!(is_luks_partition(success_report()), Ok(()));
}
