//! Structured outcome of one external invocation: exit success, and the
//! trimmed captured output streams, empty streams collapsed to `None`.

use vstd::prelude::*;
use vstd::string::StrSliceExecFns;
use crate::text::trim;
use crate::text::trimmed;

verus! {

/// What one finished external process reported.
#[derive(Clone, Debug, Eq, PartialEq)]
pub struct Response {
    /// Trimmed standard error, or `None` when it was empty.
    pub error: Option<String>,
    /// Trimmed standard output, or `None` when it was empty.
    pub output: Option<String>,
    /// Whether the process exited successfully.
    pub success: bool,
    /// The exit code, when the platform reported one.
    pub code: Option<i32>,
}

/// The trimmed text, or `None` when nothing but whitespace remains.
pub fn to_string(raw: &str) -> (r: Option<String>)
    ensures
        trimmed(raw@).len() == 0 ==> r is None,
        trimmed(raw@).len() > 0 ==> (r matches Some(s) && s@ == trimmed(raw@)),
{
    let t = trim(raw);
    if t.unicode_len() == 0 {
        None
    } else {
        Some(t.to_owned())
    }
}

impl Response {
    /// Builds the outcome from the exit state and the raw captured streams.
    pub fn new(success: bool, code: Option<i32>, stdout: &str, stderr: &str) -> (r: Response)
        ensures
            r.success == success,
            r.code == code,
            trimmed(stdout@).len() == 0 ==> r.output is None,
            trimmed(stdout@).len() > 0 ==> (r.output matches Some(s) && s@ == trimmed(stdout@)),
            trimmed(stderr@).len() == 0 ==> r.error is None,
            trimmed(stderr@).len() > 0 ==> (r.error matches Some(s) && s@ == trimmed(stderr@)),
    {
        Response { error: to_string(stderr), output: to_string(stdout), success, code }
    }

    /// An outcome that carries nothing but its exit state.
    pub fn from_status(success: bool, code: Option<i32>) -> (r: Response)
        ensures
            r.success == success,
            r.code == code,
            r.output is None,
            r.error is None,
    {
        Response { error: None, output: None, success, code }
    }
}

} // verus!
