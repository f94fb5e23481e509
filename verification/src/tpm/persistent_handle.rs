//! Compact model of a secure-element persistent-object address: a 16-bit
//! offset above a fixed 32-bit base.

use vstd::prelude::*;
use vstd::string::StrSliceExecFns;
use vstd::string::StringExecFns;
use crate::text::all_hex_digits;
use crate::text::hex_value;
use crate::text::lemma_hex8_value;
use crate::text::lemma_trimmed_identity;
use crate::text::parse_hex_u32;
use crate::text::trim;
use crate::text::trimmed;
use crate::text::u32_hex8;
use crate::text::u32_to_hex8;

verus! {

/// Lowest raw value of a persistent handle.
pub const HANDLE_BASE: u32 = 0x8100_0000;

/// Highest raw value of a persistent handle: the base plus the largest
/// 16-bit offset.
pub const HANDLE_MAX: u32 = 0x8100_FFFF;

/// Compact representation of a persistent handle (2 bytes instead of 4).
#[derive(Clone, Copy, Debug, Eq, Hash, Ord, PartialEq, PartialOrd, Structural)]
pub struct PersistentHandle(pub u16);

/// Rejected raw values and malformed text, by cause.
#[derive(Clone, Copy, Debug, Eq, PartialEq, Structural)]
pub enum PersistentHandleError {
    /// The raw value lies below the handle base.
    Min,
    /// The raw value's offset from the base does not fit in 16 bits.
    Max,
    /// The text is not a hexadecimal number.
    Parse,
}

impl PersistentHandleError {
    /// The display text of this error.
    pub open spec fn spec_message(self) -> Seq<char> {
        match self {
            PersistentHandleError::Min => "Value must be greater than 0x81000000"@,
            PersistentHandleError::Max => "Value must be less than 0x81FFFFFF"@,
            PersistentHandleError::Parse => "Invalid hex string"@,
        }
    }

    /// Renders the display text of this error.
    pub fn message(&self) -> (r: String)
        ensures
            r@ == self.spec_message(),
    {
        match self {
            PersistentHandleError::Min => String::from_str(
                "Value must be greater than 0x81000000",
            ),
            PersistentHandleError::Max => String::from_str("Value must be less than 0x81FFFFFF"),
            PersistentHandleError::Parse => String::from_str("Invalid hex string"),
        }
    }
}

impl PersistentHandle {
    /// The full 32-bit raw value the handle stands for.
    pub open spec fn spec_raw(self) -> u32 {
        (HANDLE_BASE + self.0) as u32
    }

    /// Creates a handle from an offset; the offset space is exactly the
    /// valid range, so every offset is accepted.
    pub fn from_offset(offset: u16) -> (r: Self)
        ensures
            r.0 == offset,
    {
        PersistentHandle(offset)
    }

    /// What construction from a raw value yields: rejection below the base,
    /// rejection above the largest 16-bit offset, the offset otherwise.
    pub open spec fn spec_new(handle: u32) -> Result<Self, PersistentHandleError> {
        if handle < HANDLE_BASE {
            Err(PersistentHandleError::Min)
        } else if handle > HANDLE_MAX {
            Err(PersistentHandleError::Max)
        } else {
            Ok(PersistentHandle((handle - HANDLE_BASE) as u16))
        }
    }

    /// Creates a handle from a full raw value, rejecting values outside
    /// the 16-bit offset range above the base.
    pub fn new(handle: u32) -> (r: Result<Self, PersistentHandleError>)
        ensures
            r == Self::spec_new(handle),
            handle < HANDLE_BASE ==> r == Err::<Self, _>(PersistentHandleError::Min),
            handle > HANDLE_MAX ==> r == Err::<Self, _>(PersistentHandleError::Max),
            HANDLE_BASE <= handle <= HANDLE_MAX ==> (r matches Ok(h) && h.0 == handle - HANDLE_BASE),
    {
        if handle < HANDLE_BASE {
            return Err(PersistentHandleError::Min);
        }
        let offset = handle - HANDLE_BASE;
        if offset > 0xFFFF {
            return Err(PersistentHandleError::Max);
        }
        Ok(PersistentHandle(offset as u16))
    }

    /// The full raw handle value.
    pub fn as_u32(self) -> (r: u32)
        ensures
            r == self.spec_raw(),
    {
        HANDLE_BASE + self.0 as u32
    }

    /// The offset from the base.
    pub fn offset(self) -> (r: u16)
        ensures
            r == self.0,
    {
        self.0
    }

    /// The canonical text form: `0x` followed by eight uppercase
    /// hexadecimal digits of the raw value.
    pub open spec fn spec_text(self) -> Seq<char> {
        "0x"@ + u32_hex8(self.spec_raw())
    }

    /// Renders the handle in its canonical text form.
    pub fn to_text(&self) -> (r: String)
        ensures
            r@ == self.spec_text(),
    {
        let mut out = String::from_str("0x");
        let digits = u32_to_hex8(self.as_u32());
        out.append(digits.as_str());
        out
    }

    /// What parsing yields: the text is trimmed, an optional
    /// case-insensitive `0x` prefix is dropped, the rest is read as
    /// hexadecimal and validated as a raw value.
    pub open spec fn spec_parse(s: Seq<char>) -> Result<Self, PersistentHandleError> {
        let d = strip_hex_prefix(trimmed(s));
        if d.len() == 0 || !all_hex_digits(d) || hex_value(d) > u32::MAX {
            Err(PersistentHandleError::Parse)
        } else {
            Self::spec_new(hex_value(d) as u32)
        }
    }

    /// Parses a handle from text.
    pub fn parse(s: &str) -> (r: Result<Self, PersistentHandleError>)
        ensures
            r == Self::spec_parse(s@),
    {
        let t = trim(s);
        let n = t.unicode_len();
        let digits: &str = if n >= 2 {
            let c0 = t.get_char(0);
            let c1 = t.get_char(1);
            if c0 == '0' && (c1 == 'x' || c1 == 'X') {
                t.substring_char(2, n)
            } else {
                t
            }
        } else {
            t
        };
        proof {
            assert(digits@ == strip_hex_prefix(t@));
        }
        match parse_hex_u32(digits) {
            None => Err(PersistentHandleError::Parse),
            Some(v) => Self::new(v),
        }
    }
}

impl Default for PersistentHandle {
    /// The default handle sits at the base address.
    fn default() -> (r: Self)
        ensures
            r.0 == 0,
    {
        PersistentHandle(0)
    }
}

impl TryFrom<u32> for PersistentHandle {
    type Error = PersistentHandleError;

    fn try_from(value: u32) -> Result<Self, Self::Error> {
        PersistentHandle::new(value)
    }
}

impl vstd::std_specs::convert::TryFromSpecImpl<u32> for PersistentHandle {
    open spec fn obeys_try_from_spec() -> bool {
        true
    }

    open spec fn try_from_spec(value: u32) -> Result<Self, PersistentHandleError> {
        PersistentHandle::spec_new(value)
    }
}

impl From<PersistentHandle> for u32 {
    fn from(handle: PersistentHandle) -> u32 {
        handle.as_u32()
    }
}

impl vstd::std_specs::convert::FromSpecImpl<PersistentHandle> for u32 {
    open spec fn obeys_from_spec() -> bool {
        true
    }

    open spec fn from_spec(handle: PersistentHandle) -> u32 {
        handle.spec_raw()
    }
}

impl core::str::FromStr for PersistentHandle {
    type Err = PersistentHandleError;

    fn from_str(s: &str) -> Result<Self, Self::Err> {
        PersistentHandle::parse(s)
    }
}

impl TryFrom<String> for PersistentHandle {
    type Error = PersistentHandleError;

    fn try_from(value: String) -> Result<Self, Self::Error> {
        PersistentHandle::parse(value.as_str())
    }
}

impl vstd::std_specs::convert::TryFromSpecImpl<String> for PersistentHandle {
    open spec fn obeys_try_from_spec() -> bool {
        true
    }

    open spec fn try_from_spec(value: String) -> Result<Self, PersistentHandleError> {
        PersistentHandle::spec_parse(value@)
    }
}

impl<'a> TryFrom<&'a str> for PersistentHandle {
    type Error = PersistentHandleError;

    fn try_from(value: &'a str) -> Result<Self, Self::Error> {
        PersistentHandle::parse(value)
    }
}

impl<'a> vstd::std_specs::convert::TryFromSpecImpl<&'a str> for PersistentHandle {
    open spec fn obeys_try_from_spec() -> bool {
        true
    }

    open spec fn try_from_spec(value: &'a str) -> Result<Self, PersistentHandleError> {
        PersistentHandle::spec_parse(value@)
    }
}

/// The text without a leading `0x` or `0X`, if it has one.
pub open spec fn strip_hex_prefix(s: Seq<char>) -> Seq<char> {
    if s.len() >= 2 && s[0] == '0' && (s[1] == 'x' || s[1] == 'X') {
        s.subrange(2, s.len() as int)
    } else {
        s
    }
}

/// Law: rendering any handle and parsing the text back yields that same
/// handle.
pub proof fn lemma_text_parse_round_trip(h: PersistentHandle)
    ensures
        PersistentHandle::spec_parse(h.spec_text()) == Ok::<PersistentHandle,
            PersistentHandleError,
        >(h),
{
    reveal_strlit("0x");
    let raw = h.spec_raw();
    let digits = u32_hex8(raw);
    let text = h.spec_text();
    lemma_hex8_value(raw);
    assert(text.len() == 10);
    assert(text[0] == '0' && text[1] == 'x');
    assert(text.last() == digits[7]);
    assert(crate::text::is_hex_digit(digits[7]));
    lemma_trimmed_identity(text);
    assert(strip_hex_prefix(text) =~= digits);
    assert(hex_value(digits) == raw);
    assert(HANDLE_BASE <= raw <= HANDLE_MAX);
    assert(PersistentHandle::spec_new(raw) == Ok::<PersistentHandle, PersistentHandleError>(
        PersistentHandle((raw - HANDLE_BASE) as u16),
    ));
    assert((raw - HANDLE_BASE) as u16 == h.0);
}

} // verus!
