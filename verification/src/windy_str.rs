//! Borrowed views of null-terminated buffers.
//!
//! A view is a window onto a buffer that someone else owns. Its last element
//! stands where the terminator stands; what comes before it is the string.

use vstd::prelude::*;
use vstd::slice::slice_subrange;
use crate::conversion::{narrow_start, Conversion, ConversionView, Target};
use crate::convert::{
    mb_to_wide,
    mb_to_wide_lossy,
    wide_to_mb,
    wide_to_mb_lossy,
    wide_to_utf8,
    wide_to_utf8_lossy,
    widening,
    CP_ACP,
    MB_ERR_INVALID_CHARS,
};
use crate::raw::{
    c_len,
    c_string,
    has_nul,
    is_c_string,
    lemma_c_len_bounds,
    lemma_c_len_unique,
    lemma_c_string_fixed,
    strnlen,
    wcsnlen,
};
use crate::string::{AString, WString};
use crate::units::{bytes_of_units, unpack};

verus! {

/// `len`, but no more than the number of elements before the first
/// terminator of `buf`.
pub open spec fn clamped<T>(buf: Seq<T>, nul: T, len: int) -> int {
    if c_len(buf, nul) <= len {
        c_len(buf, nul) as int
    } else {
        len
    }
}

/// A borrowed wide string.
#[derive(Clone, Copy, Debug)]
pub struct WStr<'a> {
    inner: &'a [u16],
}

impl<'a> View for WStr<'a> {
    type V = Seq<u16>;

    /// The units of the string, without the terminator.
    open spec fn view(&self) -> Seq<u16> {
        self.with_nul().drop_last()
    }
}

impl<'a> WStr<'a> {
    /// The units that the view covers: the string and the place of its
    /// terminator.
    pub closed spec fn with_nul(&self) -> Seq<u16> {
        self.inner@
    }

    /// A view covers at least the place of a terminator.
    pub open spec fn wf(&self) -> bool {
        self.with_nul().len() >= 1
    }

    /// The view ends in a terminator and holds no other.
    pub open spec fn is_terminated(&self) -> bool {
        is_c_string(self.with_nul(), 0u16)
    }

    #[verifier::type_invariant]
    closed spec fn inv(self) -> bool {
        self.wf()
    }

    /// Returns the number of units before the terminator.
    pub fn len(&self) -> (n: usize)
        ensures
            n == self@.len(),
    {
        proof {
            use_type_invariant(self);
        }
        self.inner.len() - 1
    }

    /// Returns whether no unit stands before the terminator.
    pub fn is_empty(&self) -> (b: bool)
        ensures
            b == (self@.len() == 0),
    {
        self.len() == 0
    }

    /// Returns the units that the view covers.
    pub fn to_bytes_with_nul(&self) -> (r: &'a [u16])
        ensures
            r@ == self.with_nul(),
            self.wf(),
    {
        proof {
            use_type_invariant(self);
        }
        self.inner
    }

    /// Returns the units of the string.
    pub fn to_bytes(&self) -> (r: &'a [u16])
        ensures
            r@ == self@,
    {
        proof {
            use_type_invariant(self);
        }
        let n: usize = self.inner.len();
        slice_subrange(self.inner, 0, n - 1)
    }

    /// Returns the bytes of the units that the view covers, the low byte of
    /// each unit first.
    pub fn to_u8_bytes_with_nul(&self) -> (r: Vec<u8>)
        ensures
            r@ == bytes_of_units(self.with_nul()),
    {
        unpack(self.inner)
    }

    /// Returns the bytes of the string's units, the low byte of each unit
    /// first.
    pub fn to_u8_bytes(&self) -> (r: Vec<u8>)
        ensures
            r@ == bytes_of_units(self@),
    {
        unpack(self.to_bytes())
    }

    /// Copies the string into one of its own, cut at its first terminator.
    pub fn to_wstring(&self) -> (r: WString)
        ensures
            r.with_nul() == c_string(self@, 0u16),
            self.is_terminated() ==> r.with_nul() == self.with_nul(),
            r.wf(),
    {
        proof {
            if self.is_terminated() {
                lemma_c_string_fixed(self.with_nul(), 0u16);
                assert(self@.take(self@.len() as int) =~= self@);
                lemma_c_len_unique(self@, 0u16, self@.len() as int);
                assert(c_string(self@, 0u16) =~= self.with_nul());
            }
        }
        WString::clone_from_raw(self.to_bytes())
    }

    /// Starts the conversion to UTF-8 text that fails on a unit that is no
    /// character.
    pub fn try_to_string(&self) -> (r: Conversion)
        ensures
            r@ == ConversionView::narrowed(
                false,
                narrow_start(false, Target::Utf8, self.with_nul()),
                Target::Utf8,
            ),
    {
        Conversion::narrow(false, wide_to_utf8(self.to_bytes_with_nul()), Target::Utf8)
    }

    /// Starts the conversion to UTF-8 text that puts the replacement
    /// character in place of what is no character.
    pub fn to_string_lossy(&self) -> (r: Conversion)
        ensures
            r@ == ConversionView::narrowed(
                true,
                narrow_start(true, Target::Utf8, self.with_nul()),
                Target::Utf8,
            ),
    {
        Conversion::narrow(true, wide_to_utf8_lossy(self.to_bytes_with_nul()), Target::Utf8)
    }

    /// Starts the conversion to a multi-byte string that fails where a unit
    /// has no exact mapping.
    pub fn to_astring(&self) -> (r: Conversion)
        ensures
            r@ == ConversionView::narrowed(
                false,
                narrow_start(false, Target::MultiByte, self.with_nul()),
                Target::MultiByte,
            ),
    {
        Conversion::narrow(false, wide_to_mb(self.to_bytes_with_nul()), Target::MultiByte)
    }

    /// Starts the conversion to a multi-byte string that accepts the
    /// platform's default character where a unit has no exact mapping.
    pub fn to_astring_lossy(&self) -> (r: Conversion)
        ensures
            r@ == ConversionView::narrowed(
                true,
                narrow_start(true, Target::MultiByte, self.with_nul()),
                Target::MultiByte,
            ),
    {
        Conversion::narrow(true, wide_to_mb_lossy(self.to_bytes_with_nul()), Target::MultiByte)
    }

    /// Takes `bytes` as a view, its last unit as the place of the terminator.
    pub fn from_bytes_with_nul_unchecked(bytes: &'a [u16]) -> (r: Self)
        requires
            bytes@.len() >= 1,
        ensures
            r.with_nul() == bytes@,
            r.wf(),
    {
        WStr { inner: bytes }
    }

    /// Views the string at the start of `buf`, up to its first terminator.
    pub fn from_raw(buf: &'a [u16]) -> (r: Self)
        requires
            has_nul(buf@, 0u16),
        ensures
            r.with_nul() == c_string(buf@, 0u16),
            r@ == buf@.take(c_len(buf@, 0u16) as int),
            r.is_terminated(),
    {
        let len: usize = crate::raw::wcslen(buf);
        proof {
            lemma_c_len_bounds(buf@, 0u16);
            crate::raw::lemma_c_string_is_c_string(buf@, 0u16);
            assert(buf@.take(len + 1) =~= c_string(buf@, 0u16));
        }
        Self::from_raw_s_unchecked(buf, len)
    }

    /// Views the string at the start of `buf`, up to its first terminator
    /// and to no more than `len` units. The unit that follows the string must
    /// be in `buf`.
    pub fn from_raw_s(buf: &'a [u16], len: usize) -> (r: Self)
        requires
            clamped(buf@, 0u16, len as int) < buf@.len(),
        ensures
            r.with_nul() == buf@.take(clamped(buf@, 0u16, len as int) + 1),
            r@ == buf@.take(clamped(buf@, 0u16, len as int)),
            c_len(buf@, 0u16) <= len ==> r.is_terminated(),
    {
        let len2: usize = wcsnlen(buf, len);
        proof {
            lemma_c_len_bounds(buf@, 0u16);
            if c_len(buf@, 0u16) <= len {
                crate::raw::lemma_c_string_is_c_string(buf@, 0u16);
                assert(buf@.take(len2 + 1) =~= c_string(buf@, 0u16));
            }
        }
        Self::from_raw_s_unchecked(buf, len2)
    }

    /// Views the first `len` units of `buf` as the string and the unit after
    /// them as the place of its terminator, without looking at any of them.
    pub fn from_raw_s_unchecked(buf: &'a [u16], len: usize) -> (r: Self)
        requires
            len < buf@.len(),
        ensures
            r.with_nul() == buf@.take(len + 1),
            r@ == buf@.take(len as int),
    {
        let total: usize = buf.len();
        assert(len < total);
        let r = Self::from_bytes_with_nul_unchecked(slice_subrange(buf, 0, len + 1));
        assert(r@ =~= buf@.take(len as int));
        r
    }
}

/// A borrowed multi-byte string.
#[derive(Clone, Copy, Debug)]
pub struct AStr<'a> {
    inner: &'a [u8],
}

impl<'a> View for AStr<'a> {
    type V = Seq<u8>;

    /// The bytes of the string, without the terminator.
    open spec fn view(&self) -> Seq<u8> {
        self.with_nul().drop_last()
    }
}

impl<'a> AStr<'a> {
    /// The bytes that the view covers: the string and the place of its
    /// terminator.
    pub closed spec fn with_nul(&self) -> Seq<u8> {
        self.inner@
    }

    /// A view covers at least the place of a terminator.
    pub open spec fn wf(&self) -> bool {
        self.with_nul().len() >= 1
    }

    /// The view ends in a terminator and holds no other.
    pub open spec fn is_terminated(&self) -> bool {
        is_c_string(self.with_nul(), 0u8)
    }

    #[verifier::type_invariant]
    closed spec fn inv(self) -> bool {
        self.wf()
    }

    /// Returns the number of bytes before the terminator.
    pub fn len(&self) -> (n: usize)
        ensures
            n == self@.len(),
    {
        proof {
            use_type_invariant(self);
        }
        self.inner.len() - 1
    }

    /// Returns whether no byte stands before the terminator.
    pub fn is_empty(&self) -> (b: bool)
        ensures
            b == (self@.len() == 0),
    {
        self.len() == 0
    }

    /// Returns the bytes that the view covers.
    pub fn to_bytes_with_nul(&self) -> (r: &'a [u8])
        ensures
            r@ == self.with_nul(),
            self.wf(),
    {
        proof {
            use_type_invariant(self);
        }
        self.inner
    }

    /// Returns the bytes of the string.
    pub fn to_bytes(&self) -> (r: &'a [u8])
        ensures
            r@ == self@,
    {
        proof {
            use_type_invariant(self);
        }
        let n: usize = self.inner.len();
        slice_subrange(self.inner, 0, n - 1)
    }

    /// Copies the string into one of its own, cut at its first terminator.
    pub fn to_astring(&self) -> (r: AString)
        ensures
            r.with_nul() == c_string(self@, 0u8),
            self.is_terminated() ==> r.with_nul() == self.with_nul(),
            r.wf(),
    {
        proof {
            if self.is_terminated() {
                lemma_c_string_fixed(self.with_nul(), 0u8);
                assert(self@.take(self@.len() as int) =~= self@);
                lemma_c_len_unique(self@, 0u8, self@.len() as int);
                assert(c_string(self@, 0u8) =~= self.with_nul());
            }
        }
        AString::clone_from_raw(self.to_bytes())
    }

    /// Starts the conversion to a wide string that fails on bytes that map
    /// to no character.
    pub fn to_wstring(&self) -> (r: Conversion)
        ensures
            r@ == ConversionView::widened(
                false,
                widening(CP_ACP, MB_ERR_INVALID_CHARS, self@),
                None,
            ),
    {
        Conversion::widen(false, mb_to_wide(self.to_bytes()), None)
    }

    /// Starts the conversion to a wide string that accepts the platform's
    /// default for bytes that map to no character.
    pub fn to_wstring_lossy(&self) -> (r: Conversion)
        ensures
            r@ == ConversionView::widened(true, widening(CP_ACP, 0, self@), None),
    {
        Conversion::widen(true, mb_to_wide_lossy(self.to_bytes()), None)
    }

    /// Starts the strict conversion to UTF-8 text, by way of a wide string.
    pub fn try_to_string(&self) -> (r: Conversion)
        ensures
            r@ == ConversionView::widened(
                false,
                widening(CP_ACP, MB_ERR_INVALID_CHARS, self@),
                Some(Target::Utf8),
            ),
    {
        Conversion::widen(false, mb_to_wide(self.to_bytes()), Some(Target::Utf8))
    }

    /// Starts the lossy conversion to UTF-8 text, by way of a wide string.
    pub fn to_string_lossy(&self) -> (r: Conversion)
        ensures
            r@ == ConversionView::widened(true, widening(CP_ACP, 0, self@), Some(Target::Utf8)),
    {
        Conversion::widen(true, mb_to_wide_lossy(self.to_bytes()), Some(Target::Utf8))
    }

    /// Takes `bytes` as a view, its last byte as the place of the terminator.
    pub fn from_bytes_with_nul_unchecked(bytes: &'a [u8]) -> (r: Self)
        requires
            bytes@.len() >= 1,
        ensures
            r.with_nul() == bytes@,
            r.wf(),
    {
        AStr { inner: bytes }
    }

    /// Views the string at the start of `buf`, up to its first terminator.
    pub fn from_raw(buf: &'a [u8]) -> (r: Self)
        requires
            has_nul(buf@, 0u8),
        ensures
            r.with_nul() == c_string(buf@, 0u8),
            r@ == buf@.take(c_len(buf@, 0u8) as int),
            r.is_terminated(),
    {
        let len: usize = crate::raw::strlen(buf);
        proof {
            lemma_c_len_bounds(buf@, 0u8);
            crate::raw::lemma_c_string_is_c_string(buf@, 0u8);
            assert(buf@.take(len + 1) =~= c_string(buf@, 0u8));
        }
        Self::from_raw_s_unchecked(buf, len)
    }

    /// Views the string at the start of `buf`, up to its first terminator
    /// and to no more than `len` bytes. The byte that follows the string must
    /// be in `buf`.
    pub fn from_raw_s(buf: &'a [u8], len: usize) -> (r: Self)
        requires
            clamped(buf@, 0u8, len as int) < buf@.len(),
        ensures
            r.with_nul() == buf@.take(clamped(buf@, 0u8, len as int) + 1),
            r@ == buf@.take(clamped(buf@, 0u8, len as int)),
            c_len(buf@, 0u8) <= len ==> r.is_terminated(),
    {
        let len2: usize = strnlen(buf, len);
        proof {
            lemma_c_len_bounds(buf@, 0u8);
            if c_len(buf@, 0u8) <= len {
                crate::raw::lemma_c_string_is_c_string(buf@, 0u8);
                assert(buf@.take(len2 + 1) =~= c_string(buf@, 0u8));
            }
        }
        Self::from_raw_s_unchecked(buf, len2)
    }

    /// Views the first `len` bytes of `buf` as the string and the byte after
    /// them as the place of its terminator, without looking at any of them.
    pub fn from_raw_s_unchecked(buf: &'a [u8], len: usize) -> (r: Self)
        requires
            len < buf@.len(),
        ensures
            r.with_nul() == buf@.take(len + 1),
            r@ == buf@.take(len as int),
    {
        let total: usize = buf.len();
        assert(len < total);
        let r = Self::from_bytes_with_nul_unchecked(slice_subrange(buf, 0, len + 1));
        assert(r@ =~= buf@.take(len as int));
        r
    }
}

} // verus!
