//! Making the loaded object persistent at the configured handle. Without
//! a configured handle the operation fails fast, before any tool runs.

use vstd::prelude::*;
use vstd::string::StringExecFns;
use crate::invocation::Invocation;
use crate::tpm::persistent_handle::PersistentHandle;
use crate::tpm::tpm_constants::TpmPaths;
use crate::utils::response::Response;

verus! {

/// Failures while persisting the object.
#[derive(Clone, Debug, Eq, PartialEq)]
pub enum PersistObjectError {
    /// No persistent handle is configured.
    Required,
    /// The persist tool exited with a failure; the handle and what the
    /// tool reported are kept for display.
    Failed { handle: PersistentHandle, response: Response },
}

impl PersistObjectError {
    /// The display text of this error.
    pub open spec fn spec_message(self) -> Seq<char> {
        match self {
            PersistObjectError::Required => "The `tpm_handle` option is required"@,
            PersistObjectError::Failed { .. } => "Unable to persist object"@,
        }
    }

    /// Renders the display text of this error.
    pub fn message(&self) -> (r: String)
        ensures
            r@ == self.spec_message(),
    {
        match self {
            PersistObjectError::Required => String::from_str(
                "The `tpm_handle` option is required",
            ),
            PersistObjectError::Failed { .. } => String::from_str("Unable to persist object"),
        }
    }
}

/// The persist call for a configured handle: `tpm2_evictcontrol
/// --hierarchy o --object-context <objectContext> <handle>`; fails fast
/// when no handle is configured.
pub fn persist_object_invocation(handle: Option<PersistentHandle>, paths: &TpmPaths) -> (r:
    Result<Invocation, PersistObjectError>)
    ensures
        handle is None ==> r == Err::<Invocation, PersistObjectError>(
            PersistObjectError::Required,
        ),
        handle matches Some(h) ==> (r matches Ok(inv) && inv.program@ == "tpm2_evictcontrol"@
            && inv.args_text() == seq![
            "--hierarchy"@,
            "o"@,
            "--object-context"@,
            paths.object_context@,
            h.spec_text(),
        ] && inv.input is None),
{
    let h = match handle {
        Some(h) => h,
        None => {
            return Err(PersistObjectError::Required);
        },
    };
    let mut args: Vec<String> = Vec::new();
    args.push(String::from_str("--hierarchy"));
    args.push(String::from_str("o"));
    args.push(String::from_str("--object-context"));
    args.push(paths.object_context.clone());
    args.push(h.to_text());
    proof {
        assert(args.deep_view() =~= seq![
            "--hierarchy"@,
            "o"@,
            "--object-context"@,
            paths.object_context@,
            h.spec_text(),
        ]);
    }
    Ok(Invocation { program: String::from_str("tpm2_evictcontrol"), args, input: None })
}

/// Classifies the persist call's outcome; a failure keeps the handle and
/// the tool's report as diagnostics.
pub fn persist_object(handle: PersistentHandle, outcome: Response) -> (r: Result<
    (),
    PersistObjectError,
>)
    ensures
        r == if outcome.success {
            Ok::<(), PersistObjectError>(())
        } else {
            Err::<(), PersistObjectError>((PersistObjectError::Failed { handle, response: outcome }))
        },
{
    if outcome.success {
        Ok(())
    } else {
        Err(PersistObjectError::Failed { handle, response: outcome })
    }
}

} // verus!
