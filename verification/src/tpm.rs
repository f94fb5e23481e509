//! Secure-element (TPM) side of the library: the persistent-handle model,
//! handle allocation, and the tool invocations that manage a sealed secret.

pub mod check_handle;
pub mod create_object;
pub mod create_policy;
pub mod create_primary_key;
pub mod evict_object;
pub mod load_object;
pub mod next_handle;
pub mod persist_object;
pub mod persistent_handle;
pub mod set_tpm_command;
pub mod tpm_constants;
pub mod unseal_object;
