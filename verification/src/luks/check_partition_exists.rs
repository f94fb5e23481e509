//! Guard: the encrypted block device must exist before anything probes it.

use vstd::prelude::*;
use vstd::string::StringExecFns;
use crate::utils::options::Options;

verus! {

/// The configured device path is absent; the path is kept for display.
#[derive(Clone, Debug, Eq, PartialEq)]
pub struct NoPartition {
    pub path: String,
}

impl NoPartition {
    /// The display text of this error.
    pub open spec fn spec_message(self) -> Seq<char> {
        "Parition does not exist"@
    }

    /// Renders the display text of this error.
    pub fn message(&self) -> (r: String)
        ensures
            r@ == self.spec_message(),
    {
        String::from_str("Parition does not exist")
    }
}

/// Decides the device-existence guard: it passes exactly when the device
/// path is present; a failure carries the configured path.
pub fn check_partition_exist(options: &Options, partition_present: bool) -> (r: Result<
    (),
    NoPartition,
>)
    ensures
        r == if partition_present {
            Ok::<(), NoPartition>(())
        } else {
            Err::<(), NoPartition>((NoPartition { path: options.partition_path }))
        },
{
    if partition_present {
        Ok(())
    } else {
        Err(NoPartition { path: options.partition_path.clone() })
    }
}

} // verus!
