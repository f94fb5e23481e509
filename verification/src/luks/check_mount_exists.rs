//! Guard: the mount point must exist before the mount is attempted.

use vstd::prelude::*;
use vstd::string::StringExecFns;
use crate::utils::options::Options;

verus! {

/// The configured mount path is absent; the path is kept for display.
#[derive(Clone, Debug, Eq, PartialEq)]
pub struct NoMount {
    pub path: String,
}

impl NoMount {
    /// The display text of this error.
    pub open spec fn spec_message(self) -> Seq<char> {
        "Mount point does not exist"@
    }

    /// Renders the display text of this error.
    pub fn message(&self) -> (r: String)
        ensures
            r@ == self.spec_message(),
    {
        String::from_str("Mount point does not exist")
    }
}

/// Decides the mount-point guard: it passes exactly when the mount path
/// is present; a failure carries the configured path.
pub fn check_mount_exists(options: &Options, mount_point_present: bool) -> (r: Result<(), NoMount>)
    ensures
        r == if mount_point_present {
            Ok::<(), NoMount>(())
        } else {
            Err::<(), NoMount>((NoMount { path: options.mount_path }))
        },
{
    if mount_point_present {
        Ok(())
    } else {
        Err(NoMount { path: options.mount_path.clone() })
    }
}

} // verus!
