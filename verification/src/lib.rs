//! Null-terminated strings in the two encodings of a platform string API:
//! a multi-byte ("ANSI") encoding of one byte per unit and a wide encoding of
//! 16-bit units, with conversions between them and UTF-8 text.
//!
//! The library never calls the platform itself. A conversion is a value that
//! names the next native call to make and takes the reply; whoever holds the
//! platform makes the call. Everything the library decides in between is
//! verified for every reply.

use vstd::prelude::*;
use vstd::string::StringExecFns;

pub mod compare;
pub mod conversion;
pub mod convert;
pub mod raw;
pub mod string;
pub mod traits;
pub mod units;
pub mod windy_str;

pub use conversion::{Call, Conversion, Converted, Target};
pub use convert::{NativeCall, NativeReply, OsResult, Transcode};
pub use raw::{c_len, c_string, has_nul, is_c_string, nul_free};
pub use raw::{strlen, strnlen, wcslen, wcsnlen};
pub use string::{AString, WString};
pub use traits::{ToAString, ToWString};
pub use windy_str::{AStr, WStr};

verus! {

/// Why a conversion failed, by the encoding that was to be produced, with the
/// platform's error code.
#[derive(Copy, Clone, Debug, PartialEq, Eq, Structural, PartialOrd, Ord, Hash)]
pub enum ConvertError {
    /// No UTF-8 text could be produced.
    ConvertToUtf8Error(u32),
    /// No multi-byte string could be produced.
    ConvertToAnsiError(u32),
    /// No wide string could be produced.
    ConvertToUnicodeError(u32),
}

/// A value, or why the conversion to it failed.
pub type ConvertResult<T> = Result<T, ConvertError>;

impl ConvertError {
    /// The platform's error code, whatever the variant.
    pub open spec fn code(self) -> u32 {
        match self {
            ConvertError::ConvertToUtf8Error(x) => x,
            ConvertError::ConvertToAnsiError(x) => x,
            ConvertError::ConvertToUnicodeError(x) => x,
        }
    }

    /// The variant's name.
    pub open spec fn name(self) -> Seq<char> {
        match self {
            ConvertError::ConvertToUtf8Error(_) => "ConvertToUtf8Error"@,
            ConvertError::ConvertToAnsiError(_) => "ConvertToAnsiError"@,
            ConvertError::ConvertToUnicodeError(_) => "ConvertToUnicodeError"@,
        }
    }

    /// Returns the platform's error code.
    pub fn as_error_code(&self) -> (code: u32)
        ensures
            code == self.code(),
    {
        match self {
            ConvertError::ConvertToUtf8Error(x) => *x,
            ConvertError::ConvertToAnsiError(x) => *x,
            ConvertError::ConvertToUnicodeError(x) => *x,
        }
    }

    /// Returns the name under which the error is rendered.
    pub fn variant_name(&self) -> (name: &'static str)
        ensures
            name@ == self.name(),
    {
        match self {
            ConvertError::ConvertToUtf8Error(_) => "ConvertToUtf8Error",
            ConvertError::ConvertToAnsiError(_) => "ConvertToAnsiError",
            ConvertError::ConvertToUnicodeError(_) => "ConvertToUnicodeError",
        }
    }
}

impl From<ConvertError> for u32 {
    fn from(x: ConvertError) -> (code: u32) {
        x.as_error_code()
    }
}

impl vstd::std_specs::convert::FromSpecImpl<ConvertError> for u32 {
    open spec fn obeys_from_spec() -> bool {
        true
    }

    open spec fn from_spec(x: ConvertError) -> u32 {
        x.code()
    }
}

impl From<ConvertError> for i32 {
    fn from(x: ConvertError) -> (code: i32) {
        #[verifier::truncate]
        (x.as_error_code() as i32)
    }
}

impl vstd::std_specs::convert::FromSpecImpl<ConvertError> for i32 {
    open spec fn obeys_from_spec() -> bool {
        true
    }

    /// The code's 32 bits, read as a signed number.
    open spec fn from_spec(x: ConvertError) -> i32 {
        x.code() as i32
    }
}

/// Renders a string for a debugger: its text between double quotes.
pub fn quoted(text: &str) -> (r: String)
    ensures
        r@ == seq!['"'] + text@ + seq!['"'],
{
    proof {
        reveal_strlit("\"");
    }
    let mut r = String::from_str("\"");
    r.append(text);
    r.append("\"");
    assert("\""@ =~= seq!['"']);
    r
}

} // verus!
