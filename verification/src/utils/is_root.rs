//! The privilege guard: the pipeline refuses to start without an elevated
//! effective user.

use vstd::prelude::*;
use vstd::string::StringExecFns;

verus! {

/// The effective user is not root.
#[derive(Clone, Copy, Debug, Eq, PartialEq, Structural)]
pub struct RootRequired;

impl RootRequired {
    /// The display text of this error.
    pub open spec fn spec_message(self) -> Seq<char> {
        "Root is required"@
    }

    /// Renders the display text of this error.
    pub fn message(&self) -> (r: String)
        ensures
            r@ == self.spec_message(),
    {
        String::from_str("Root is required")
    }
}

/// Relies on `nix::unistd::Uid::effective` and `Uid::is_root`: whether the
/// process's effective user id is root. The answer depends on the process
/// environment, so nothing is promised of it.
#[verifier::external_body]
fn effective_user_is_root() -> bool {
    nix::unistd::Uid::effective().is_root()
}

/// Decides the privilege guard for a given answer: it passes exactly when
/// the effective user is elevated.
pub fn require_root(elevated: bool) -> (r: Result<(), RootRequired>)
    ensures
        r == if elevated {
            Ok::<(), RootRequired>(())
        } else {
            Err::<(), RootRequired>(RootRequired)
        },
{
    if elevated {
        Ok(())
    } else {
        Err(RootRequired)
    }
}

/// Checks the process's own privilege. The outcome depends on the
/// environment; whatever it is, the only possible failure is
/// `RootRequired`.
pub fn is_root() -> (r: Result<(), RootRequired>)
    ensures
        r matches Err(e) ==> e == RootRequired,
{
    require_root(effective_user_is_root())
}

} // verus!
