//! Key-material assembly: the fragments of up to three enabled sources —
//! key file, sealed secret, interactive prompt — concatenated in that
//! exact order with no separators. Reading the sources is the front end's
//! job; the assembly rule is verified here.

use vstd::prelude::*;
use vstd::string::StringExecFns;

verus! {

/// Failures around key material.
#[derive(Clone, Copy, Debug, Eq, PartialEq, Structural)]
pub enum KeyError {
    /// The key file could not be read.
    KeyFile,
    /// The sealed secret could not be unsealed.
    Tpm,
    /// The interactive prompt could not be read.
    Prompt,
    /// No key source is enabled.
    Required,
    /// The assembled key was rejected by the dry-run test.
    InvalidKey,
    /// The real unlock failed.
    Unlock,
    /// The key is already accepted by a key slot.
    Exists,
    /// Appending the key to the header failed.
    Add,
}

impl KeyError {
    /// The display text of this error.
    pub open spec fn spec_message(self) -> Seq<char> {
        match self {
            KeyError::KeyFile => "Unable to read key file"@,
            KeyError::Tpm => "Unable to read key from TPM"@,
            KeyError::Prompt => "Unable to read key from prompt"@,
            KeyError::Required => "At least one key source must be provided"@,
            KeyError::InvalidKey => "Key is incorrect"@,
            KeyError::Unlock => "Failed to unlock LUKS partition"@,
            KeyError::Exists => "Key already exists"@,
            KeyError::Add => "Failed to add LUKS key"@,
        }
    }

    /// Renders the display text of this error.
    pub fn message(&self) -> (r: String)
        ensures
            r@ == self.spec_message(),
    {
        match self {
            KeyError::KeyFile => String::from_str("Unable to read key file"),
            KeyError::Tpm => String::from_str("Unable to read key from TPM"),
            KeyError::Prompt => String::from_str("Unable to read key from prompt"),
            KeyError::Required => String::from_str("At least one key source must be provided"),
            KeyError::InvalidKey => String::from_str("Key is incorrect"),
            KeyError::Unlock => String::from_str("Failed to unlock LUKS partition"),
            KeyError::Exists => String::from_str("Key already exists"),
            KeyError::Add => String::from_str("Failed to add LUKS key"),
        }
    }
}

/// The fragment a source contributes: its text when it was read, nothing
/// when the source is disabled. An enabled source's empty text still
/// counts as a fragment.
pub open spec fn fragment_text(fragment: Option<Seq<char>>) -> Seq<char> {
    match fragment {
        Some(s) => s,
        None => Seq::empty(),
    }
}

/// The assembled secret: the fragments in source order — file, then
/// sealed secret, then prompt — with no separators.
pub open spec fn spec_assembled(
    file: Option<Seq<char>>,
    sealed: Option<Seq<char>>,
    prompt: Option<Seq<char>>,
) -> Seq<char> {
    fragment_text(file) + fragment_text(sealed) + fragment_text(prompt)
}

/// Assembles the unlock secret from the fragments the enabled sources
/// produced, in the fixed source order; fails when no source was enabled.
/// The order and the absence of separators are a design contract: callers
/// that reproduce a combined secret must reproduce them exactly.
pub fn assemble_key(file: Option<String>, sealed: Option<String>, prompt: Option<String>) -> (r:
    Result<String, KeyError>)
    ensures
        file is None && sealed is None && prompt is None ==> r == Err::<String, KeyError>(
            KeyError::Required,
        ),
        !(file is None && sealed is None && prompt is None) ==> (r matches Ok(k) && k@
            == spec_assembled(file.deep_view(), sealed.deep_view(), prompt.deep_view())),
{
    if file.is_none() && sealed.is_none() && prompt.is_none() {
        return Err(KeyError::Required);
    }
    let mut key = String::new();
    match &file {
        Some(f) => key.append(f.as_str()),
        None => (),
    }
    match &sealed {
        Some(s) => key.append(s.as_str()),
        None => (),
    }
    match &prompt {
        Some(p) => key.append(p.as_str()),
        None => (),
    }
    proof {
        assert(key@ =~= spec_assembled(file.deep_view(), sealed.deep_view(), prompt.deep_view()));
    }
    Ok(key)
}

} // verus!
