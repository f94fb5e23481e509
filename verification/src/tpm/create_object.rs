//! Sealing the secret into a child object bound to the integrity policy.
//! The secret is streamed to the sealing tool's input channel and never
//! placed in the argument list.

use vstd::prelude::*;
use vstd::string::StringExecFns;
use crate::invocation::Invocation;
use crate::tpm::tpm_constants::TpmPaths;
use crate::utils::response::Response;

verus! {

/// Failures while sealing the secret.
#[derive(Clone, Debug, Eq, PartialEq)]
pub enum CreateObjectError {
    /// The secret could not be read from the prompt.
    Prompt,
    /// The sealing tool exited with a failure; what it reported is kept
    /// for display.
    Failed { response: Response },
}

impl CreateObjectError {
    /// The display text of this error.
    pub open spec fn spec_message(self) -> Seq<char> {
        match self {
            CreateObjectError::Prompt => "Unable to read key from prompt"@,
            CreateObjectError::Failed { .. } => "Unable to create object"@,
        }
    }

    /// Renders the display text of this error.
    pub fn message(&self) -> (r: String)
        ensures
            r@ == self.spec_message(),
    {
        match self {
            CreateObjectError::Prompt => String::from_str("Unable to read key from prompt"),
            CreateObjectError::Failed { .. } => String::from_str("Unable to create object"),
        }
    }
}

/// The argument list of the sealing call. It is a function of the session
/// files alone: the secret takes no part in it.
pub open spec fn spec_create_object_args(paths: TpmPaths) -> Seq<Seq<char>> {
    seq![
        "--parent-context"@,
        paths.primary_context@,
        "--hash-algorithm"@,
        "sha256"@,
        "--public"@,
        paths.object_public@,
        "--private"@,
        paths.object_private@,
        "--policy"@,
        paths.policy@,
        "--sealing-input"@,
        "-"@,
    ]
}

/// The sealing call: `tpm2_create` on the primary context, with
/// `--sealing-input -` so the secret arrives over the input channel and
/// never in the argument list.
pub fn create_object_invocation(paths: &TpmPaths, key: &str) -> (r: Invocation)
    ensures
        r.program@ == "tpm2_create"@,
        r.args_text() == spec_create_object_args(*paths),
        r.input matches Some(k) && k@ == key@,
{
    let mut args: Vec<String> = Vec::new();
    args.push(String::from_str("--parent-context"));
    args.push(paths.primary_context.clone());
    args.push(String::from_str("--hash-algorithm"));
    args.push(String::from_str("sha256"));
    args.push(String::from_str("--public"));
    args.push(paths.object_public.clone());
    args.push(String::from_str("--private"));
    args.push(paths.object_private.clone());
    args.push(String::from_str("--policy"));
    args.push(paths.policy.clone());
    args.push(String::from_str("--sealing-input"));
    args.push(String::from_str("-"));
    proof {
        assert(args.deep_view() =~= spec_create_object_args(*paths));
    }
    Invocation { program: String::from_str("tpm2_create"), args, input: Some(key.to_owned()) }
}

/// Classifies the sealing call's outcome; a failure keeps the tool's
/// report as diagnostics.
pub fn create_object(outcome: Response) -> (r: Result<(), CreateObjectError>)
    ensures
        r == if outcome.success {
            Ok::<(), CreateObjectError>(())
        } else {
            Err::<(), CreateObjectError>((CreateObjectError::Failed { response: outcome }))
        },
{
    if outcome.success {
        Ok(())
    } else {
        Err(CreateObjectError::Failed { response: outcome })
    }
}

} // verus!
