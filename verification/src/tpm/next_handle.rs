//! Allocation of the lowest free persistent-handle offset under a small
//! fixed ceiling, reflecting secure-element slot scarcity.

use vstd::prelude::*;
use vstd::string::StringExecFns;
use crate::tpm::persistent_handle::PersistentHandle;

verus! {

/// How many persistent-handle slots the library is willing to occupy.
pub const MAX_PERSISTENT_HANDLES: u32 = 7;

/// Every slot under the ceiling is occupied.
#[derive(Clone, Copy, Debug, Eq, PartialEq, Structural)]
pub struct NextHandleError;

impl NextHandleError {
    /// The display text of this error.
    pub open spec fn spec_message(self) -> Seq<char> {
        "Unable to find next available TPM persistent handle"@
    }

    /// Renders the display text of this error.
    pub fn message(&self) -> (r: String)
        ensures
            r@ == self.spec_message(),
    {
        String::from_str("Unable to find next available TPM persistent handle")
    }
}

/// Whether some listed handle sits at `offset`.
pub open spec fn offset_taken(handles: Seq<PersistentHandle>, offset: int) -> bool {
    exists|j: int| 0 <= j < handles.len() && handles[j].0 == offset
}

/// Whether `handles` holds a handle with offset `offset`.
pub(crate) fn contains_offset(handles: &Vec<PersistentHandle>, offset: u16) -> (r: bool)
    ensures
        r == offset_taken(handles@, offset as int),
{
    let n = handles.len();
    let mut j: usize = 0;
    while j < n
        invariant
            0 <= j <= n == handles@.len(),
            forall|k: int| 0 <= k < j ==> #[trigger] handles@[k].0 != offset,
        decreases n - j,
    {
        if handles[j].offset() == offset {
            return true;
        }
        j = j + 1;
    }
    false
}

/// Returns the handle at the lowest offset under the ceiling that none of
/// the given handles occupies, scanning in ascending order; fails when
/// every slot is occupied.
pub fn next_handle(handles: Vec<PersistentHandle>) -> (r: Result<
    PersistentHandle,
    NextHandleError,
>)
    ensures
        match r {
            Ok(h) => {
                &&& h.0 < MAX_PERSISTENT_HANDLES
                &&& !offset_taken(handles@, h.0 as int)
                &&& forall|k: int| 0 <= k < h.0 ==> offset_taken(handles@, k)
            },
            Err(_) => forall|k: int|
                0 <= k < MAX_PERSISTENT_HANDLES ==> offset_taken(handles@, k),
        },
{
    let mut i: u32 = 0;
    while i < MAX_PERSISTENT_HANDLES
        invariant
            0 <= i <= MAX_PERSISTENT_HANDLES,
            forall|k: int| 0 <= k < i ==> offset_taken(handles@, k),
        decreases MAX_PERSISTENT_HANDLES - i,
    {
        let candidate = i as u16;
        if !contains_offset(&handles, candidate) {
            return Ok(PersistentHandle::from_offset(candidate));
        }
        i = i + 1;
    }
    Err(NextHandleError)
}

} // verus!
