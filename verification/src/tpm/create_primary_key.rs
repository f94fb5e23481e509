//! Creating the primary key under the owner hierarchy, the parent of the
//! sealed object. The operation is idempotent: it only writes the key
//! context file.

use vstd::prelude::*;
use vstd::string::StringExecFns;
use crate::invocation::Invocation;
use crate::tpm::tpm_constants::TpmPaths;
use crate::utils::response::Response;

verus! {

/// The primary-key creation tool exited with a failure; what it reported
/// is kept for display.
#[derive(Clone, Debug, Eq, PartialEq)]
pub struct CreatePrimaryError {
    pub response: Response,
}

impl CreatePrimaryError {
    /// The display text of this error.
    pub open spec fn spec_message(self) -> Seq<char> {
        "Unable to create TPM primary key"@
    }

    /// Renders the display text of this error.
    pub fn message(&self) -> (r: String)
        ensures
            r@ == self.spec_message(),
    {
        String::from_str("Unable to create TPM primary key")
    }
}

/// The primary-key creation: `tpm2_createprimary --hierarchy o
/// --hash-algorithm sha256 --key-algorithm ecc --key-context
/// <primaryContext>`, an elliptic-curve key under the owner hierarchy.
pub fn create_primary_invocation(paths: &TpmPaths) -> (r: Invocation)
    ensures
        r.program@ == "tpm2_createprimary"@,
        r.args_text() == seq![
            "--hierarchy"@,
            "o"@,
            "--hash-algorithm"@,
            "sha256"@,
            "--key-algorithm"@,
            "ecc"@,
            "--key-context"@,
            paths.primary_context@,
        ],
        r.input is None,
{
    let mut args: Vec<String> = Vec::new();
    args.push(String::from_str("--hierarchy"));
    args.push(String::from_str("o"));
    args.push(String::from_str("--hash-algorithm"));
    args.push(String::from_str("sha256"));
    args.push(String::from_str("--key-algorithm"));
    args.push(String::from_str("ecc"));
    args.push(String::from_str("--key-context"));
    args.push(paths.primary_context.clone());
    proof {
        assert(args.deep_view() =~= seq![
            "--hierarchy"@,
            "o"@,
            "--hash-algorithm"@,
            "sha256"@,
            "--key-algorithm"@,
            "ecc"@,
            "--key-context"@,
            paths.primary_context@,
        ]);
    }
    Invocation { program: String::from_str("tpm2_createprimary"), args, input: None }
}

/// Classifies the primary-key creation's outcome; a failure keeps the
/// tool's report as diagnostics.
pub fn create_primary(outcome: Response) -> (r: Result<(), CreatePrimaryError>)
    ensures
        r == if outcome.success {
            Ok::<(), CreatePrimaryError>(())
        } else {
            Err::<(), CreatePrimaryError>((CreatePrimaryError { response: outcome }))
        },
{
    if outcome.success {
        Ok(())
    } else {
        Err(CreatePrimaryError { response: outcome })
    }
}

} // verus!
