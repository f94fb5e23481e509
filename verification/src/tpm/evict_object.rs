//! Evicting a persistent object: releasing the handle that names it.

use vstd::prelude::*;
use vstd::string::StringExecFns;
use crate::invocation::Invocation;
use crate::tpm::persistent_handle::PersistentHandle;
use crate::utils::response::Response;

verus! {

/// The evict tool exited with a failure; the handle and what the tool
/// reported are kept for display.
#[derive(Clone, Debug, Eq, PartialEq)]
pub struct EvictObjectError {
    pub handle: PersistentHandle,
    pub response: Response,
}

impl EvictObjectError {
    /// The display text of this error.
    pub open spec fn spec_message(self) -> Seq<char> {
        "Unable to evict object"@
    }

    /// Renders the display text of this error.
    pub fn message(&self) -> (r: String)
        ensures
            r@ == self.spec_message(),
    {
        String::from_str("Unable to evict object")
    }
}

/// The evict call: `tpm2_evictcontrol --hierarchy o --object-context
/// <handle>`.
pub fn evict_invocation(handle: &PersistentHandle) -> (r: Invocation)
    ensures
        r.program@ == "tpm2_evictcontrol"@,
        r.args_text() == seq!["--hierarchy"@, "o"@, "--object-context"@, handle.spec_text()],
        r.input is None,
{
    let mut args: Vec<String> = Vec::new();
    args.push(String::from_str("--hierarchy"));
    args.push(String::from_str("o"));
    args.push(String::from_str("--object-context"));
    args.push(handle.to_text());
    proof {
        assert(args.deep_view() =~= seq![
            "--hierarchy"@,
            "o"@,
            "--object-context"@,
            handle.spec_text(),
        ]);
    }
    Invocation { program: String::from_str("tpm2_evictcontrol"), args, input: None }
}

/// Classifies the evict call's outcome; a failure keeps the handle and
/// the tool's report as diagnostics.
pub fn evict_object(handle: &PersistentHandle, outcome: Response) -> (r: Result<
    (),
    EvictObjectError,
>)
    ensures
        r == if outcome.success {
            Ok::<(), EvictObjectError>(())
        } else {
            Err::<(), EvictObjectError>((EvictObjectError { handle: *handle, response: outcome }))
        },
{
    if outcome.success {
        Ok(())
    } else {
        Err(EvictObjectError { handle: *handle, response: outcome })
    }
}

} // verus!
