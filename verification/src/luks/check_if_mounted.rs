//! Guard: the mount path must not already be mounted. The mount table is
//! queried with `findmnt`; a successful exit means the path was found.

use vstd::prelude::*;
use vstd::string::StringExecFns;
use crate::invocation::Invocation;
use crate::utils::options::Options;

verus! {

/// The mount path already appears in the mount table.
#[derive(Clone, Copy, Debug, Eq, PartialEq, Structural)]
pub struct AlreadyMounted;

impl AlreadyMounted {
    /// The display text of this error.
    pub open spec fn spec_message(self) -> Seq<char> {
        "Partition is already mounted"@
    }

    /// Renders the display text of this error.
    pub fn message(&self) -> (r: String)
        ensures
            r@ == self.spec_message(),
    {
        String::from_str("Partition is already mounted")
    }
}

/// The mount-table query: `findmnt --noheadings <mountPath>`.
pub fn check_if_mounted_invocation(options: &Options) -> (r: Invocation)
    ensures
        r.program@ == "findmnt"@,
        r.args_text() == seq!["--noheadings"@, options.mount_path@],
        r.input is None,
{
    let mut args: Vec<String> = Vec::new();
    args.push(String::from_str("--noheadings"));
    args.push(options.mount_path.clone());
    proof {
        assert(args.deep_view() =~= seq!["--noheadings"@, options.mount_path@]);
    }
    Invocation { program: String::from_str("findmnt"), args, input: None }
}

/// Decides the mount-state guard: a mount-table query that succeeded found
/// the path, so the guard fails; a query that failed found nothing, so the
/// guard passes.
pub fn check_if_mounted(query_success: bool) -> (r: Result<(), AlreadyMounted>)
    ensures
        r == if query_success {
            Err::<(), AlreadyMounted>(AlreadyMounted)
        } else {
            Ok::<(), AlreadyMounted>(())
        },
{
    if query_success {
        Err(AlreadyMounted)
    } else {
        Ok(())
    }
}

} // verus!
