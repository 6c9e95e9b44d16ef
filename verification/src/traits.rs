//! Text that can be converted to either kind of string.

use vstd::prelude::*;
use vstd::string::StringSliceAdditionalSpecFns;
use crate::conversion::{Conversion, ConversionView, Target};
use crate::convert::{widening, CP_UTF8, MB_ERR_INVALID_CHARS};
use crate::string::{AString, WString};

verus! {

/// UTF-8 text that converts to a wide string.
pub trait ToWString {
    /// The bytes of the text.
    spec fn utf8(&self) -> Seq<u8>;

    /// Starts the strict conversion to a wide string.
    fn to_wstring(&self) -> (r: Conversion)
        ensures
            r@ == ConversionView::widened(
                false,
                widening(CP_UTF8, MB_ERR_INVALID_CHARS, self.utf8()),
                None,
            ),
    ;

    /// Starts the lossy conversion to a wide string.
    fn to_wstring_lossy(&self) -> (r: Conversion)
        ensures
            r@ == ConversionView::widened(true, widening(CP_UTF8, 0, self.utf8()), None),
    ;
}

/// UTF-8 text that converts to a multi-byte string.
pub trait ToAString {
    /// The bytes of the text.
    spec fn utf8_text(&self) -> Seq<u8>;

    /// Starts the strict conversion to a multi-byte string.
    fn to_astring(&self) -> (r: Conversion)
        ensures
            r@ == ConversionView::widened(
                false,
                widening(CP_UTF8, MB_ERR_INVALID_CHARS, self.utf8_text()),
                Some(Target::MultiByte),
            ),
    ;

    /// Starts the lossy conversion to a multi-byte string.
    fn to_astring_lossy(&self) -> (r: Conversion)
        ensures
            r@ == ConversionView::widened(
                true,
                widening(CP_UTF8, 0, self.utf8_text()),
                Some(Target::MultiByte),
            ),
    ;
}

impl ToWString for str {
    open spec fn utf8(&self) -> Seq<u8> {
        self.spec_bytes()
    }

    fn to_wstring(&self) -> (r: Conversion) {
        WString::from_str(self)
    }

    fn to_wstring_lossy(&self) -> (r: Conversion) {
        WString::from_str_lossy(self)
    }
}

impl ToAString for str {
    open spec fn utf8_text(&self) -> Seq<u8> {
        self.spec_bytes()
    }

    fn to_astring(&self) -> (r: Conversion) {
        AString::from_str(self)
    }

    fn to_astring_lossy(&self) -> (r: Conversion) {
        AString::from_str_lossy(self)
    }
}

impl ToWString for String {
    open spec fn utf8(&self) -> Seq<u8> {
        vstd::utf8::encode_utf8(self@)
    }

    fn to_wstring(&self) -> (r: Conversion) {
        WString::from_str(self.as_str())
    }

    fn to_wstring_lossy(&self) -> (r: Conversion) {
        WString::from_str_lossy(self.as_str())
    }
}

impl ToAString for String {
    open spec fn utf8_text(&self) -> Seq<u8> {
        vstd::utf8::encode_utf8(self@)
    }

    fn to_astring(&self) -> (r: Conversion) {
        AString::from_str(self.as_str())
    }

    fn to_astring_lossy(&self) -> (r: Conversion) {
        AString::from_str_lossy(self.as_str())
    }
}

} // verus!
