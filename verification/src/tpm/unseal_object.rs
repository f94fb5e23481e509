//! Unsealing the secret, gated by the same integrity policy it was sealed
//! under: a changed platform state surfaces as a failed unseal.

use vstd::prelude::*;
use vstd::string::StrSliceExecFns;
use vstd::string::StringExecFns;
use crate::invocation::Invocation;
use crate::tpm::persistent_handle::PersistentHandle;
use crate::utils::response::Response;

verus! {

/// The unseal tool exited with a failure — a changed platform state
/// surfaces here; what the tool reported is kept for display.
#[derive(Clone, Debug, Eq, PartialEq)]
pub struct UnsealError {
    pub response: Response,
}

impl UnsealError {
    /// The display text of this error.
    pub open spec fn spec_message(self) -> Seq<char> {
        "Unable to unseal TPM object"@
    }

    /// Renders the display text of this error.
    pub fn message(&self) -> (r: String)
        ensures
            r@ == self.spec_message(),
    {
        String::from_str("Unable to unseal TPM object")
    }
}

/// The unseal call for an object context: `tpm2_unseal --object-context
/// <context> --auth pcr:<bank:index>`.
pub fn unseal_invocation(context: &str) -> (r: Invocation)
    ensures
        r.program@ == "tpm2_unseal"@,
        r.args_text() == seq!["--object-context"@, context@, "--auth"@, "pcr:sha256:7"@],
        r.input is None,
{
    let mut args: Vec<String> = Vec::new();
    args.push(String::from_str("--object-context"));
    args.push(context.to_owned());
    args.push(String::from_str("--auth"));
    args.push(String::from_str("pcr:sha256:7"));
    proof {
        assert(args.deep_view() =~= seq![
            "--object-context"@,
            context@,
            "--auth"@,
            "pcr:sha256:7"@,
        ]);
    }
    Invocation { program: String::from_str("tpm2_unseal"), args, input: None }
}

/// The unseal call for a persistent object, addressed by its handle in
/// canonical text form.
pub fn unseal_persistent_invocation(handle: &PersistentHandle) -> (r: Invocation)
    ensures
        r.program@ == "tpm2_unseal"@,
        r.args_text() == seq![
            "--object-context"@,
            handle.spec_text(),
            "--auth"@,
            "pcr:sha256:7"@,
        ],
        r.input is None,
{
    let context = handle.to_text();
    unseal_invocation(context.as_str())
}

/// Classifies the unseal call's outcome: on success the unsealed secret
/// is the trimmed captured output, empty when the tool printed nothing; a
/// failure keeps the tool's report as diagnostics.
pub fn unseal_object(outcome: Response) -> (r: Result<String, UnsealError>)
    ensures
        !outcome.success ==> r == Err::<String, UnsealError>((UnsealError { response: outcome })),
        outcome.success ==> (r matches Ok(s) && s@ == match outcome.output {
            Some(o) => o@,
            None => Seq::<char>::empty(),
        }),
{
    if !outcome.success {
        return Err(UnsealError { response: outcome });
    }
    match outcome.output {
        Some(o) => Ok(o),
        None => Ok(String::new()),
    }
}

} // verus!
