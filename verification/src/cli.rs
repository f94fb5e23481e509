//! The subcommands the tool offers. Argument parsing and dispatch live in
//! the front end; the library only names the commands.

use vstd::prelude::*;
use vstd::string::StringExecFns;

verus! {

/// The commands the tool offers, defaulting to the mount flow.
#[derive(Clone, Copy, Debug, Eq, PartialEq, Structural)]
pub enum SubCommand {
    /// Unlock and mount a LUKS encrypted partition.
    Mount,
    /// Check the key.
    Validate,
    /// Save the TPM component of the passphrase in TPM.
    SetTpm,
    /// Add the passphrase to LUKS.
    SetLuks,
}

impl Default for SubCommand {
    /// The command used when none is named.
    fn default() -> (r: Self)
        ensures
            r == SubCommand::Mount,
    {
        SubCommand::Mount
    }
}

impl SubCommand {
    /// The display name of the command.
    pub fn name(&self) -> (r: String)
        ensures
            self is Mount ==> r@ == "Mount"@,
            self is Validate ==> r@ == "Validate"@,
            self is SetTpm ==> r@ == "SetTpm"@,
            self is SetLuks ==> r@ == "SetLuks"@,
    {
        match self {
            SubCommand::Mount => String::from_str("Mount"),
            SubCommand::Validate => String::from_str("Validate"),
            SubCommand::SetTpm => String::from_str("SetTpm"),
            SubCommand::SetLuks => String::from_str("SetLuks"),
        }
    }
}

} // verus!
