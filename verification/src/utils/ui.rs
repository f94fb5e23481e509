//! Progress rendering. The step counter is threaded through explicitly as
//! a value; each renderer returns the line for the front end to print.

use vstd::prelude::*;
use vstd::string::StrSliceExecFns;
use vstd::string::StringExecFns;
use crate::text::dec_digits;
use crate::text::u32_to_dec;

verus! {

/// Renders the start-of-step line, advancing the step counter by one; the
/// counter is the only state the pipeline mutates.
pub fn print_step_start(counter: &mut u32, total: u32, message: &str) -> (line: String)
    requires
        *old(counter) < u32::MAX,
    ensures
        *final(counter) == *old(counter) + 1,
        line@ == dec_digits(*final(counter) as nat) + "/"@ + dec_digits(total as nat) + " | "@
            + message@,
{
    *counter = *counter + 1;
    let mut line = u32_to_dec(*counter);
    line.append("/");
    let total_text = u32_to_dec(total);
    line.append(total_text.as_str());
    line.append(" | ");
    line.append(message);
    line
}

/// Renders the success marker of a completed step.
pub fn print_step_completed(message: &str) -> (line: String)
    ensures
        line@ == "  \u{2713} | "@ + message@,
{
    let mut line = String::from_str("  \u{2713} | ");
    line.append(message);
    line
}

/// Renders the failure marker of a failed run.
pub fn print_error(message: &str) -> (line: String)
    ensures
        line@ == "  \u{2a2f} | "@ + message@,
{
    let mut line = String::from_str("  \u{2a2f} | ");
    line.append(message);
    line
}

} // verus!
