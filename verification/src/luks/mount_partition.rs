//! The mount action: mounting the unlocked mapper device at the mount
//! path.

use vstd::prelude::*;
use vstd::string::StringExecFns;
use crate::invocation::Invocation;
use crate::utils::options::Options;
use crate::utils::response::Response;

verus! {

/// The mount tool exited with a failure; what it reported is kept for
/// display.
#[derive(Clone, Debug, Eq, PartialEq)]
pub struct MountError {
    pub response: Response,
}

impl MountError {
    /// The display text of this error.
    pub open spec fn spec_message(self) -> Seq<char> {
        "Failed to mount partition"@
    }

    /// Renders the display text of this error.
    pub fn message(&self) -> (r: String)
        ensures
            r@ == self.spec_message(),
    {
        String::from_str("Failed to mount partition")
    }
}

/// The mount action: `mount <mapperDevicePath> <mountPath>`.
pub fn mount_invocation(options: &Options) -> (r: Invocation)
    ensures
        r.program@ == "mount"@,
        r.args_text() == seq!["/dev/mapper/"@ + options.mapper_name@, options.mount_path@],
        r.input is None,
{
    let mut args: Vec<String> = Vec::new();
    args.push(options.get_mapper_path());
    args.push(options.mount_path.clone());
    proof {
        assert(args.deep_view() =~= seq![
            "/dev/mapper/"@ + options.mapper_name@,
            options.mount_path@,
        ]);
    }
    Invocation { program: String::from_str("mount"), args, input: None }
}

/// Classifies the mount action's outcome; a failure keeps the tool's
/// report as diagnostics.
pub fn mount_partition(outcome: Response) -> (r: Result<(), MountError>)
    ensures
        r == if outcome.success {
            Ok::<(), MountError>(())
        } else {
            Err::<(), MountError>((MountError { response: outcome }))
        },
{
    if outcome.success {
        Ok(())
    } else {
        Err(MountError { response: outcome })
    }
}

} // verus!
