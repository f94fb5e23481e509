//! Loading the sealed object — both portions — back into the secure
//! element, producing its context file.

use vstd::prelude::*;
use vstd::string::StringExecFns;
use crate::invocation::Invocation;
use crate::tpm::tpm_constants::TpmPaths;
use crate::utils::response::Response;

verus! {

/// The load tool exited with a failure; what it reported is kept for
/// display.
#[derive(Clone, Debug, Eq, PartialEq)]
pub struct LoadError {
    pub response: Response,
}

impl LoadError {
    /// The display text of this error.
    pub open spec fn spec_message(self) -> Seq<char> {
        "Unable to load object into the TPM"@
    }

    /// Renders the display text of this error.
    pub fn message(&self) -> (r: String)
        ensures
            r@ == self.spec_message(),
    {
        String::from_str("Unable to load object into the TPM")
    }
}

/// The load call: `tpm2_load --parent-context <primaryContext> --public
/// <objectPublic> --private <objectPrivate> --key-context
/// <objectContext>`.
pub fn load_invocation(paths: &TpmPaths) -> (r: Invocation)
    ensures
        r.program@ == "tpm2_load"@,
        r.args_text() == seq![
            "--parent-context"@,
            paths.primary_context@,
            "--public"@,
            paths.object_public@,
            "--private"@,
            paths.object_private@,
            "--key-context"@,
            paths.object_context@,
        ],
        r.input is None,
{
    let mut args: Vec<String> = Vec::new();
    args.push(String::from_str("--parent-context"));
    args.push(paths.primary_context.clone());
    args.push(String::from_str("--public"));
    args.push(paths.object_public.clone());
    args.push(String::from_str("--private"));
    args.push(paths.object_private.clone());
    args.push(String::from_str("--key-context"));
    args.push(paths.object_context.clone());
    proof {
        assert(args.deep_view() =~= seq![
            "--parent-context"@,
            paths.primary_context@,
            "--public"@,
            paths.object_public@,
            "--private"@,
            paths.object_private@,
            "--key-context"@,
            paths.object_context@,
        ]);
    }
    Invocation { program: String::from_str("tpm2_load"), args, input: None }
}

/// Classifies the load call's outcome; a failure keeps the tool's report
/// as diagnostics.
pub fn load_object(outcome: Response) -> (r: Result<(), LoadError>)
    ensures
        r == if outcome.success {
            Ok::<(), LoadError>(())
        } else {
            Err::<(), LoadError>((LoadError { response: outcome }))
        },
{
    if outcome.success {
        Ok(())
    } else {
        Err(LoadError { response: outcome })
    }
}

} // verus!
