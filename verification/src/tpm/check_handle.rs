//! Enumerating the persistent handles the secure element holds, and
//! checking that the configured handle is still free. The enumeration's
//! output is parsed leniently: only lines that look like hexadecimal
//! addresses count, and malformed lines are silently skipped — the
//! query's own exit state is authoritative, not line-level parsing.

use vstd::prelude::*;
use vstd::string::StrSliceExecFns;
use vstd::string::StringExecFns;
use crate::invocation::Invocation;
use crate::text::line_break_at;
use crate::text::lemma_line_break_at_point;
use crate::text::split_lines;
use crate::text::strip_cr;
use crate::tpm::next_handle::contains_offset;
use crate::tpm::next_handle::offset_taken;
use crate::tpm::persistent_handle::PersistentHandle;
use crate::utils::response::Response;

verus! {

/// Failures around the handle enumeration.
#[derive(Clone, Debug, Eq, PartialEq)]
pub enum CheckHandleError {
    /// No persistent handle is configured, so there is nothing to check.
    Required,
    /// The enumeration tool exited with a failure; what it reported is
    /// kept for display.
    Failed { response: Response },
    /// The configured handle names an object that already exists.
    HandleInUse { handle: PersistentHandle },
}

impl CheckHandleError {
    /// The display text of this error.
    pub open spec fn spec_message(self) -> Seq<char> {
        match self {
            CheckHandleError::Required => "The `tpm_handle` option is required"@,
            CheckHandleError::Failed { .. } => "Unable to check persistent TPM handles"@,
            CheckHandleError::HandleInUse { .. } => "TPM handle is already in use"@,
        }
    }

    /// Renders the display text of this error.
    pub fn message(&self) -> (r: String)
        ensures
            r@ == self.spec_message(),
    {
        match self {
            CheckHandleError::Required => String::from_str("The `tpm_handle` option is required"),
            CheckHandleError::Failed { .. } => String::from_str(
                "Unable to check persistent TPM handles",
            ),
            CheckHandleError::HandleInUse { .. } => String::from_str(
                "TPM handle is already in use",
            ),
        }
    }
}

/// The enumeration call: `tpm2_getcap handles-persistent`.
pub fn get_handles_invocation() -> (r: Invocation)
    ensures
        r.program@ == "tpm2_getcap"@,
        r.args_text() == seq!["handles-persistent"@],
        r.input is None,
{
    let mut args: Vec<String> = Vec::new();
    args.push(String::from_str("handles-persistent"));
    proof {
        assert(args.deep_view() =~= seq!["handles-persistent"@]);
    }
    Invocation { program: String::from_str("tpm2_getcap"), args, input: None }
}

/// A line without its leading list markers: every repetition of `- ` is
/// dropped from the front.
pub open spec fn strip_dashes(l: Seq<char>) -> Seq<char>
    decreases l.len(),
{
    if l.len() >= 2 && l[0] == '-' && l[1] == ' ' {
        strip_dashes(l.subrange(2, l.len() as int))
    } else {
        l
    }
}

/// The handle one enumeration line contributes: after the list markers it
/// must announce a hexadecimal address with a lowercase `0x` and parse as
/// a valid handle; any other line contributes nothing.
pub open spec fn line_handle(l: Seq<char>) -> Option<PersistentHandle> {
    let c = strip_dashes(l);
    if c.len() >= 2 && c[0] == '0' && c[1] == 'x' {
        match PersistentHandle::spec_parse(c) {
            Ok(h) => Some(h),
            Err(_) => None,
        }
    } else {
        None
    }
}

/// The handles a sequence of lines contributes, in order.
pub open spec fn handles_in_lines(lines: Seq<Seq<char>>) -> Seq<PersistentHandle>
    decreases lines.len(),
{
    if lines.len() == 0 {
        Seq::empty()
    } else {
        (match line_handle(lines[0]) {
            Some(h) => seq![h],
            None => Seq::empty(),
        }) + handles_in_lines(lines.drop_first())
    }
}

/// The handles the enumeration's output text announces.
pub open spec fn spec_handles(stdout: Seq<char>) -> Seq<PersistentHandle> {
    handles_in_lines(split_lines(stdout))
}

/// The handle one line contributes.
fn parse_handle_line(line: &str) -> (r: Option<PersistentHandle>)
    ensures
        r == line_handle(line@),
{
    let n = line.unicode_len();
    let mut start: usize = 0;
    proof {
        assert(line@.subrange(0, n as int) =~= line@);
    }
    while n - start >= 2 && line.get_char(start) == '-' && line.get_char(start + 1) == ' '
        invariant
            0 <= start <= n == line@.len(),
            strip_dashes(line@) == strip_dashes(line@.subrange(start as int, n as int)),
        decreases n - start,
    {
        proof {
            let cur = line@.subrange(start as int, n as int);
            assert(cur.subrange(2, cur.len() as int) =~= line@.subrange(
                start + 2,
                n as int,
            ));
        }
        start = start + 2;
    }
    proof {
        assert(strip_dashes(line@) == line@.subrange(start as int, n as int));
    }
    let c = line.substring_char(start, n);
    let m = c.unicode_len();
    if m >= 2 && c.get_char(0) == '0' && c.get_char(1) == 'x' {
        match PersistentHandle::parse(c) {
            Ok(h) => Some(h),
            Err(_) => None,
        }
    } else {
        None
    }
}

/// Parses the enumeration's outcome into the announced handles. A failed
/// query is fatal and keeps the tool's report as diagnostics; within a
/// successful one, only lines that announce an address count.
pub fn get_handles(response: Response) -> (r: Result<Vec<PersistentHandle>, CheckHandleError>)
    ensures
        !response.success ==> r == Err::<Vec<PersistentHandle>, CheckHandleError>(
            (CheckHandleError::Failed { response }),
        ),
        response.success ==> (r matches Ok(v) && v@ == spec_handles(
            match response.output {
                Some(o) => o@,
                None => Seq::<char>::empty(),
            },
        )),
{
    if !response.success {
        return Err(CheckHandleError::Failed { response });
    }
    let mut handles: Vec<PersistentHandle> = Vec::new();
    let stdout: &str = match &response.output {
        Some(o) => o.as_str(),
        None => {
            return Ok(handles);
        },
    };
    let n = stdout.unicode_len();
    let mut pos: usize = 0;
    proof {
        assert(stdout@.subrange(0, n as int) =~= stdout@);
    }
    while pos < n
        invariant
            0 <= pos <= n == stdout@.len(),
            handles@ + handles_in_lines(split_lines(stdout@.subrange(pos as int, n as int)))
                == spec_handles(stdout@),
        decreases n - pos,
    {
        let mut j: usize = pos;
        while j < n && stdout.get_char(j) != '\n'
            invariant
                pos <= j <= n == stdout@.len(),
                forall|k: int| pos <= k < j ==> stdout@[k] != '\n',
            decreases n - j,
        {
            j = j + 1;
        }
        let piece_end: usize = if j < n && j > pos && stdout.get_char(j - 1) == '\r' {
            j - 1
        } else {
            j
        };
        let piece = stdout.substring_char(pos, piece_end);
        let ghost handles_before = handles@;
        match parse_handle_line(piece) {
            Some(h) => handles.push(h),
            None => (),
        }
        proof {
            let rest = stdout@.subrange(pos as int, n as int);
            assert(forall|k: int| 0 <= k < j - pos ==> rest[k] != '\n');
            lemma_line_break_at_point(rest, j - pos);
            if j < n {
                let head = rest.subrange(0, j - pos);
                let tail = rest.subrange(j - pos + 1, rest.len() as int);
                assert(split_lines(rest) == seq![strip_cr(head)] + split_lines(tail));
                assert(head =~= stdout@.subrange(pos as int, j as int));
                assert(tail =~= stdout@.subrange(j + 1, n as int));
                assert(strip_cr(head) =~= piece@);
                let lines = split_lines(rest);
                assert(lines[0] == piece@);
                assert(lines.drop_first() =~= split_lines(tail));
                assert(handles_in_lines(lines) == (match line_handle(piece@) {
                    Some(h) => seq![h],
                    None => Seq::<PersistentHandle>::empty(),
                }) + handles_in_lines(split_lines(tail)));
                assert(handles@ + handles_in_lines(split_lines(tail)) =~= handles_before
                    + handles_in_lines(lines));
            } else {
                assert(rest.len() > 0);
                assert(split_lines(rest) == seq![rest]);
                assert(piece@ =~= rest);
                let lines = split_lines(rest);
                assert(lines.drop_first() =~= Seq::<Seq<char>>::empty());
                assert(handles_in_lines(lines) == (match line_handle(piece@) {
                    Some(h) => seq![h],
                    None => Seq::<PersistentHandle>::empty(),
                }) + handles_in_lines(Seq::<Seq<char>>::empty()));
                assert(handles@ =~= handles_before + handles_in_lines(lines));
                assert(stdout@.subrange(n as int, n as int) =~= Seq::<char>::empty());
            }
        }
        pos = if j < n {
            j + 1
        } else {
            n
        };
    }
    proof {
        assert(stdout@.subrange(n as int, n as int) =~= Seq::<char>::empty());
    }
    Ok(handles)
}

/// Checks that the handle the configuration names is not already among
/// the persisted ones; fails fast when no handle is configured.
pub fn check_handle(configured: Option<PersistentHandle>, handles: &Vec<PersistentHandle>) -> (r:
    Result<(), CheckHandleError>)
    ensures
        configured is None ==> r == Err::<(), CheckHandleError>(CheckHandleError::Required),
        configured matches Some(h) ==> r == if offset_taken(handles@, h.0 as int) {
            Err::<(), CheckHandleError>((CheckHandleError::HandleInUse { handle: h }))
        } else {
            Ok::<(), CheckHandleError>(())
        },
{
    let target = match configured {
        Some(h) => h,
        None => {
            return Err(CheckHandleError::Required);
        },
    };
    if contains_offset(handles, target.offset()) {
        Err(CheckHandleError::HandleInUse { handle: target })
    } else {
        Ok(())
    }
}

} // verus!
