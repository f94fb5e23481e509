//! Guard: the device must carry the LUKS on-disk format. The format probe
//! distinguishes a clean "not formatted" answer from an unexpected
//! failure by its captured streams.

use vstd::prelude::*;
use vstd::string::StringExecFns;
use crate::invocation::Invocation;
use crate::utils::options::Options;
use crate::utils::response::Response;

verus! {

/// Outcomes of the format probe that stop the pipeline.
#[derive(Clone, Debug, Eq, PartialEq)]
pub enum IsLuksError {
    /// The probe reported cleanly that the device is not LUKS-formatted.
    NotLuks,
    /// The probe failed for some other reason; what it reported is kept
    /// for display.
    Unexpected { response: Response },
}

impl IsLuksError {
    /// The display text of this error.
    pub open spec fn spec_message(self) -> Seq<char> {
        match self {
            IsLuksError::NotLuks => "Parition is not encrypted with LUKS"@,
            IsLuksError::Unexpected { .. } => "Unable to determine if encrypted with LUKS"@,
        }
    }

    /// Renders the display text of this error.
    pub fn message(&self) -> (r: String)
        ensures
            r@ == self.spec_message(),
    {
        match self {
            IsLuksError::NotLuks => String::from_str("Parition is not encrypted with LUKS"),
            IsLuksError::Unexpected { .. } => String::from_str(
                "Unable to determine if encrypted with LUKS",
            ),
        }
    }
}

/// The format probe: `cryptsetup isLuks <device>`.
pub fn is_luks_invocation(options: &Options) -> (r: Invocation)
    ensures
        r.program@ == "cryptsetup"@,
        r.args_text() == seq!["isLuks"@, options.partition_path@],
        r.input is None,
{
    let mut args: Vec<String> = Vec::new();
    args.push(String::from_str("isLuks"));
    args.push(options.partition_path.clone());
    proof {
        assert(args.deep_view() =~= seq!["isLuks"@, options.partition_path@]);
    }
    Invocation { program: String::from_str("cryptsetup"), args, input: None }
}

/// What the probe outcome means: success passes; a silent non-zero exit —
/// both streams empty — is the probe's "not formatted" signal; anything
/// else is unexpected and keeps the probe's report as diagnostics.
pub open spec fn spec_is_luks(response: Response) -> Result<(), IsLuksError> {
    if response.success {
        Ok(())
    } else if response.output is None && response.error is None {
        Err(IsLuksError::NotLuks)
    } else {
        Err(IsLuksError::Unexpected { response })
    }
}

/// Decides the format guard from the probe's outcome.
pub fn is_luks_partition(response: Response) -> (r: Result<(), IsLuksError>)
    ensures
        r == spec_is_luks(response),
{
    if response.success {
        Ok(())
    } else if response.output.is_none() && response.error.is_none() {
        Err(IsLuksError::NotLuks)
    } else {
        Err(IsLuksError::Unexpected { response })
    }
}

} // verus!
