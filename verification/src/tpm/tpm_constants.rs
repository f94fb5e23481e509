//! Fixed parameters of the secure-element session, and the transient
//! context files the tools exchange state through. The files are handles
//! to secure-element state and never hold the secret in cleartext; the
//! directory that holds them is process-scoped and chosen by the front
//! end.

use vstd::prelude::*;
use vstd::string::StrSliceExecFns;
use vstd::string::StringExecFns;

verus! {

/// The platform-integrity policy selector: the PCR bank algorithm and the
/// register index, here the SHA-256 bank and register 7, the secure-boot
/// state.
pub fn policy() -> (r: String)
    ensures
        r@ == "sha256:7"@,
{
    String::from_str("sha256:7")
}

/// The transient files of one secure-element session.
pub struct TpmPaths {
    /// Path of the PCR policy file.
    pub policy: String,
    /// Path of the primary-key context.
    pub primary_context: String,
    /// Path of the public portion of the sealed object.
    pub object_public: String,
    /// Path of the sensitive portion of the sealed object.
    pub object_private: String,
    /// Path of the sealed-object context.
    pub object_context: String,
}

impl TpmPaths {
    /// The session files inside the given directory.
    pub fn in_dir(dir: &str) -> (r: TpmPaths)
        ensures
            r.policy@ == dir@ + "/policy.dat"@,
            r.primary_context@ == dir@ + "/primary.ctx"@,
            r.object_public@ == dir@ + "/object.pub"@,
            r.object_private@ == dir@ + "/object.private"@,
            r.object_context@ == dir@ + "/object.ctx"@,
    {
        let mut policy = dir.to_owned();
        policy.append("/policy.dat");
        let mut primary_context = dir.to_owned();
        primary_context.append("/primary.ctx");
        let mut object_public = dir.to_owned();
        object_public.append("/object.pub");
        let mut object_private = dir.to_owned();
        object_private.append("/object.private");
        let mut object_context = dir.to_owned();
        object_context.append("/object.ctx");
        TpmPaths { policy, primary_context, object_public, object_private, object_context }
    }
}

} // verus!
