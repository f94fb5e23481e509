//! LUKS side of the library: key-material assembly, the guard checks of
//! the precondition pipeline, the unlock and mount actions, and the
//! command flows built from them.

pub mod add_key;
pub mod check_if_mounted;
pub mod check_key;
pub mod check_mount_exists;
pub mod check_partition_exists;
pub mod get_key;
pub mod is_luks;
pub mod is_partition_locked;
pub mod mount_command;
pub mod mount_partition;
pub mod set_luks_command;
pub mod unlock_luks;
pub mod validate_command;
