//! Unlock and mount a LUKS-encrypted block device.
//!
//! The library models the credential-assembly and guarded-unlock pipeline:
//! the persistent-handle address space of the secure element, the assembly of
//! key material from up to three sources, the exact argument lists of the
//! privileged tools the pipeline drives, the classification of their
//! outcomes, and the ordered fail-fast step machines of each command flow.
//! Process spawning, prompting and configuration discovery live in the
//! unverified front end, which feeds results back in as plain values.

pub mod cli;
pub mod invocation;
pub mod luks;
pub mod text;
pub mod tpm;
pub mod utils;
