//! Tests of the tool invocations: exact argument lists, and the rule that
//! a secret only ever travels over the input channel, never in the
//! argument list.

use mount_luks::luks::add_key::add_key_invocation;
use mount_luks::luks::check_if_mounted::check_if_mounted_invocation;
use mount_luks::luks::check_key::check_key_invocation;
use mount_luks::luks::is_luks::is_luks_invocation;
use mount_luks::luks::mount_partition::mount_invocation;
use mount_luks::luks::unlock_luks::unlock_invocation;
use mount_luks::tpm::check_handle::get_handles_invocation;
use mount_luks::tpm::create_object::create_object_invocation;
use mount_luks::tpm::create_policy::create_policy_invocation;
use mount_luks::tpm::create_primary_key::create_primary_invocation;
use mount_luks::tpm::evict_object::evict_invocation;
use mount_luks::tpm::load_object::load_invocation;
use mount_luks::tpm::persist_object::persist_object_invocation;
use mount_luks::tpm::persist_object::PersistObjectError;
use mount_luks::tpm::persistent_handle::PersistentHandle;
use mount_luks::tpm::tpm_constants::TpmPaths;
use mount_luks::tpm::unseal_object::unseal_invocation;
use mount_luks::tpm::unseal_object::unseal_persistent_invocation;
use mount_luks::utils::options::Options;

const SECRET: &str = "hunter2-very-secret";

fn options() -> Options {
    Options {
        partition_path: "/dev/sda3".to_owned(),
        mapper_name: "cryptroot".to_owned(),
        mount_path: "/mnt/secure".to_owned(),
        key_path: None,
        tpm_handle: None,
        key_prompt: None,
    }
}

fn paths() -> TpmPaths {
    TpmPaths::in_dir("/tmp/mount_luks")
}

/// No spawned argument may hold the secret; it travels only on the input
/// channel.
fn assert_secret_off_argv(program: &str, args: &[String], input: Option<&String>) {
    assert!(!program.contains(SECRET));
    for arg in args {
        assert!(!arg.contains(SECRET), "secret leaked into argv: {arg}");
    }
    assert_eq!(input.map(|i| i.contains(SECRET)), Some(true));
}

#[test]
fn check_key_streams_secret() {
    let inv = check_key_invocation(&options(), SECRET);
    assert_eq!(inv.program, "cryptsetup");
    assert_eq!(
        inv.args,
        vec!["luksOpen", "--test-passphrase", "--key-file=-", "/dev/sda3"]
    );
    assert_eq!(inv.input.as_deref(), Some(SECRET));
    assert_secret_off_argv(&inv.program, &inv.args, inv.input.as_ref());
}

#[test]
fn unlock_streams_secret() {
    let inv = unlock_invocation(&options(), SECRET);
    assert_eq!(inv.program, "cryptsetup");
    assert_eq!(
        inv.args,
        vec!["luksOpen", "--key-file=-", "/dev/sda3", "cryptroot"]
    );
    assert_eq!(inv.input.as_deref(), Some(SECRET));
    assert_secret_off_argv(&inv.program, &inv.args, inv.input.as_ref());
}

#[test]
fn add_key_streams_both_secrets() {
    let inv = add_key_invocation(&options(), "existing-pass", SECRET);
    assert_eq!(inv.program, "cryptsetup");
    assert_eq!(inv.args, vec!["luksAddKey", "/dev/sda3"]);
    assert_eq!(
        inv.input.as_deref(),
        Some("existing-pass\nhunter2-very-secret\nhunter2-very-secret")
    );
    assert_secret_off_argv(&inv.program, &inv.args, inv.input.as_ref());
    for arg in &inv.args {
        assert!(!arg.contains("existing-pass"));
    }
}

#[test]
fn sealing_streams_secret() {
    let inv = create_object_invocation(&paths(), SECRET);
    assert_eq!(inv.program, "tpm2_create");
    assert_eq!(
        inv.args,
        vec![
            "--parent-context",
            "/tmp/mount_luks/primary.ctx",
            "--hash-algorithm",
            "sha256",
            "--public",
            "/tmp/mount_luks/object.pub",
            "--private",
            "/tmp/mount_luks/object.private",
            "--policy",
            "/tmp/mount_luks/policy.dat",
            "--sealing-input",
            "-",
        ]
    );
    assert_eq!(inv.input.as_deref(), Some(SECRET));
    assert_secret_off_argv(&inv.program, &inv.args, inv.input.as_ref());
}

#[test]
fn probe_and_query_invocations() {
    let inv = is_luks_invocation(&options());
    assert_eq!(inv.program, "cryptsetup");
    assert_eq!(inv.args, vec!["isLuks", "/dev/sda3"]);
    assert!(inv.input.is_none());

    let inv = check_if_mounted_invocation(&options());
    assert_eq!(inv.program, "findmnt");
    assert_eq!(inv.args, vec!["--noheadings", "/mnt/secure"]);
    assert!(inv.input.is_none());

    let inv = mount_invocation(&options());
    assert_eq!(inv.program, "mount");
    assert_eq!(inv.args, vec!["/dev/mapper/cryptroot", "/mnt/secure"]);
    assert!(inv.input.is_none());
}

#[test]
fn tpm_session_invocations() {
    let inv = get_handles_invocation();
    assert_eq!(inv.program, "tpm2_getcap");
    assert_eq!(inv.args, vec!["handles-persistent"]);

    let inv = create_policy_invocation(&paths());
    assert_eq!(inv.program, "tpm2_createpolicy");
    assert_eq!(
        inv.args,
        vec![
            "--policy-pcr",
            "--pcr-list",
            "sha256:7",
            "--policy",
            "/tmp/mount_luks/policy.dat",
        ]
    );

    let inv = create_primary_invocation(&paths());
    assert_eq!(inv.program, "tpm2_createprimary");
    assert_eq!(
        inv.args,
        vec![
            "--hierarchy",
            "o",
            "--hash-algorithm",
            "sha256",
            "--key-algorithm",
            "ecc",
            "--key-context",
            "/tmp/mount_luks/primary.ctx",
        ]
    );

    let inv = load_invocation(&paths());
    assert_eq!(inv.program, "tpm2_load");
    assert_eq!(
        inv.args,
        vec![
            "--parent-context",
            "/tmp/mount_luks/primary.ctx",
            "--public",
            "/tmp/mount_luks/object.pub",
            "--private",
            "/tmp/mount_luks/object.private",
            "--key-context",
            "/tmp/mount_luks/object.ctx",
        ]
    );
}

#[test]
fn persist_requires_a_handle() {
    assert!(matches!(
        persist_object_invocation(None, &paths()),
        Err(PersistObjectError::Required)
    ));

    let handle = PersistentHandle::from_offset(3);
    let inv = persist_object_invocation(Some(handle), &paths()).expect("a handle is configured");
    assert_eq!(inv.program, "tpm2_evictcontrol");
    assert_eq!(
        inv.args,
        vec![
            "--hierarchy",
            "o",
            "--object-context",
            "/tmp/mount_luks/object.ctx",
            "0x81000003",
        ]
    );
}

#[test]
fn evict_and_unseal_invocations() {
    let handle = PersistentHandle::from_offset(0xABCD);
    let inv = evict_invocation(&handle);
    assert_eq!(inv.program, "tpm2_evictcontrol");
    assert_eq!(
        inv.args,
        vec!["--hierarchy", "o", "--object-context", "0x8100ABCD"]
    );

    let inv = unseal_invocation("/tmp/mount_luks/object.ctx");
    assert_eq!(inv.program, "tpm2_unseal");
    assert_eq!(
        inv.args,
        vec![
            "--object-context",
            "/tmp/mount_luks/object.ctx",
            "--auth",
            "pcr:sha256:7",
        ]
    );

    let inv = unseal_persistent_invocation(&handle);
    assert_eq!(
        inv.args,
        vec!["--object-context", "0x8100ABCD", "--auth", "pcr:sha256:7"]
    );
}
