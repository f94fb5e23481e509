//! Guard: the partition must still be locked, which shows as the absence
//! of its mapper device node.

use vstd::prelude::*;
use vstd::string::StringExecFns;

verus! {

/// The mapper device node already exists.
#[derive(Clone, Copy, Debug, Eq, PartialEq, Structural)]
pub struct PartitionUnlocked;

impl PartitionUnlocked {
    /// The display text of this error.
    pub open spec fn spec_message(self) -> Seq<char> {
        "Partition is already unlocked"@
    }

    /// Renders the display text of this error.
    pub fn message(&self) -> (r: String)
        ensures
            r@ == self.spec_message(),
    {
        String::from_str("Partition is already unlocked")
    }
}

/// Decides the lock-state guard: it passes exactly when the mapper device
/// node is absent.
pub fn is_partition_locked(mapper_present: bool) -> (r: Result<(), PartitionUnlocked>)
    ensures
        r == if mapper_present {
            Err::<(), PartitionUnlocked>(PartitionUnlocked)
        } else {
            Ok::<(), PartitionUnlocked>(())
        },
{
    if mapper_present {
        Err(PartitionUnlocked)
    } else {
        Ok(())
    }
}

} // verus!
