//! Creating the platform-integrity policy the sealed secret is bound to.
//! The operation is idempotent: it only writes the policy file.

use vstd::prelude::*;
use vstd::string::StringExecFns;
use crate::invocation::Invocation;
use crate::tpm::tpm_constants::TpmPaths;
use crate::tpm::tpm_constants::policy;
use crate::utils::response::Response;

verus! {

/// The policy-creation tool exited with a failure; what it reported is
/// kept for display.
#[derive(Clone, Debug, Eq, PartialEq)]
pub struct CreatePolicyError {
    pub response: Response,
}

impl CreatePolicyError {
    /// The display text of this error.
    pub open spec fn spec_message(self) -> Seq<char> {
        "Unable to create TPM policy"@
    }

    /// Renders the display text of this error.
    pub fn message(&self) -> (r: String)
        ensures
            r@ == self.spec_message(),
    {
        String::from_str("Unable to create TPM policy")
    }
}

/// The policy creation: `tpm2_createpolicy --policy-pcr --pcr-list
/// <bank:index> --policy <policyFile>`.
pub fn create_policy_invocation(paths: &TpmPaths) -> (r: Invocation)
    ensures
        r.program@ == "tpm2_createpolicy"@,
        r.args_text() == seq![
            "--policy-pcr"@,
            "--pcr-list"@,
            "sha256:7"@,
            "--policy"@,
            paths.policy@,
        ],
        r.input is None,
{
    let mut args: Vec<String> = Vec::new();
    args.push(String::from_str("--policy-pcr"));
    args.push(String::from_str("--pcr-list"));
    args.push(policy());
    args.push(String::from_str("--policy"));
    args.push(paths.policy.clone());
    proof {
        assert(args.deep_view() =~= seq![
            "--policy-pcr"@,
            "--pcr-list"@,
            "sha256:7"@,
            "--policy"@,
            paths.policy@,
        ]);
    }
    Invocation { program: String::from_str("tpm2_createpolicy"), args, input: None }
}

/// Classifies the policy creation's outcome; a failure keeps the tool's
/// report as diagnostics.
pub fn create_policy(outcome: Response) -> (r: Result<(), CreatePolicyError>)
    ensures
        r == if outcome.success {
            Ok::<(), CreatePolicyError>(())
        } else {
            Err::<(), CreatePolicyError>((CreatePolicyError { response: outcome }))
        },
{
    if outcome.success {
        Ok(())
    } else {
        Err(CreatePolicyError { response: outcome })
    }
}

} // verus!
