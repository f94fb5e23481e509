//! The resolved configuration the pipeline consumes. Discovering and
//! parsing the configuration file is the front end's job; the library only
//! works on the resolved values.

use vstd::prelude::*;
use vstd::string::StringExecFns;
use crate::tpm::persistent_handle::PersistentHandle;

verus! {

/// The resolved configuration, immutable for the pipeline's lifetime.
pub struct Options {
    /// Path of the encrypted block device.
    pub partition_path: String,
    /// Name of the mapper device the unlock creates.
    pub mapper_name: String,
    /// Path the decrypted device is mounted at.
    pub mount_path: String,
    /// Path of the key file, when that source is enabled.
    pub key_path: Option<String>,
    /// Persistent handle of the sealed secret, when that source is enabled.
    pub tpm_handle: Option<PersistentHandle>,
    /// Whether an interactive prompt is required as a source.
    pub key_prompt: Option<bool>,
}

/// Failures while resolving the configuration.
#[derive(Clone, Copy, Debug, Eq, PartialEq, Structural)]
pub enum OptionsError {
    /// The configuration file does not exist.
    NoFile,
    /// The configuration file could not be read.
    Read,
    /// A required configuration key is missing.
    Required,
}

impl OptionsError {
    /// The display text of this error.
    pub open spec fn spec_message(self) -> Seq<char> {
        match self {
            OptionsError::NoFile => "Options file does not exist"@,
            OptionsError::Read => "Unable to read options file"@,
            OptionsError::Required => "Options file is not complete"@,
        }
    }

    /// Renders the display text of this error.
    pub fn message(&self) -> (r: String)
        ensures
            r@ == self.spec_message(),
    {
        match self {
            OptionsError::NoFile => String::from_str("Options file does not exist"),
            OptionsError::Read => String::from_str("Unable to read options file"),
            OptionsError::Required => String::from_str("Options file is not complete"),
        }
    }
}

impl Options {
    /// Whether any key-material source is enabled.
    pub open spec fn has_key_source(&self) -> bool {
        self.key_path is Some || self.tpm_handle is Some || self.key_prompt == Some(true)
    }

    /// The mapper device path: the fixed mapper directory joined with the
    /// configured mapper name.
    pub fn get_mapper_path(&self) -> (r: String)
        ensures
            r@ == "/dev/mapper/"@ + self.mapper_name@,
    {
        let mut out = String::from_str("/dev/mapper/");
        out.append(self.mapper_name.as_str());
        out
    }
}

} // verus!
