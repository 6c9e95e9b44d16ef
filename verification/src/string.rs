//! Owned null-terminated strings.
//!
//! An owned string holds its buffer: the units of the string and one
//! terminator after them, with no terminator among the units. Constructors
//! cut what they are given at the first terminator, or append one.

use vstd::prelude::*;
use vstd::slice::{slice_subrange, slice_to_vec};
use crate::raw::{
    c_len,
    c_string,
    is_c_string,
    lemma_c_len_bounds,
    lemma_c_string_is_c_string,
    nul_free,
    strnlen,
    wcsnlen,
};
use vstd::string::StringSliceAdditionalSpecFns;
use crate::conversion::{narrow_start, Conversion, ConversionView, Target};
use crate::convert::{
    utf8_to_wide,
    utf8_to_wide_lossy,
    widening,
    CP_ACP,
    CP_UTF8,
    MB_ERR_INVALID_CHARS,
};
use crate::units::{bytes_of_units, pack, units_of_bytes, unpack};
use crate::windy_str::{clamped, AStr, WStr};

verus! {

/// An owned wide string.
#[derive(Debug, Eq, Ord, Hash)]
pub struct WString {
    inner: Vec<u16>,
}

impl View for WString {
    type V = Seq<u16>;

    /// The units of the string, without the terminator.
    open spec fn view(&self) -> Seq<u16> {
        self.with_nul().drop_last()
    }
}

impl WString {
    /// The buffer: the units of the string and the terminator.
    pub closed spec fn with_nul(&self) -> Seq<u16> {
        self.inner@
    }

    /// The buffer ends in a terminator and holds no other.
    pub open spec fn wf(&self) -> bool {
        is_c_string(self.with_nul(), 0u16)
    }

    /// Returns the buffer, terminator included.
    pub fn as_bytes_with_nul(&self) -> (r: &[u16])
        ensures
            r@ == self.with_nul(),
    {
        self.inner.as_slice()
    }

    /// Returns the buffer for writing. Its length is fixed; whoever writes
    /// to it answers for the terminator.
    pub fn as_bytes_with_nul_mut(&mut self) -> (r: &mut [u16])
        ensures
            r@ == old(self).with_nul(),
            final(self).with_nul() == final(r)@,
    {
        self.inner.as_mut_slice()
    }

    /// Returns the units of the string.
    pub fn as_bytes(&self) -> (r: &[u16])
        requires
            self.wf(),
        ensures
            r@ == self@,
    {
        let n: usize = self.inner.len();
        slice_subrange(self.inner.as_slice(), 0, n - 1)
    }

    /// Returns the bytes of the buffer, the low byte of each unit first.
    pub fn as_u8_bytes_with_nul(&self) -> (r: Vec<u8>)
        ensures
            r@ == bytes_of_units(self.with_nul()),
    {
        unpack(self.inner.as_slice())
    }

    /// Returns the bytes of the string's units, the low byte of each unit
    /// first.
    pub fn as_u8_bytes(&self) -> (r: Vec<u8>)
        requires
            self.wf(),
        ensures
            r@ == bytes_of_units(self@),
    {
        unpack(self.as_bytes())
    }

    /// Returns a view of the whole string.
    pub fn as_c_str(&self) -> (r: WStr<'_>)
        requires
            self.wf(),
        ensures
            r.with_nul() == self.with_nul(),
            r@ == self@,
            r.is_terminated(),
    {
        WStr::from_bytes_with_nul_unchecked(self.inner.as_slice())
    }

    /// Returns the number of units before the terminator.
    pub fn len(&self) -> (n: usize)
        requires
            self.wf(),
        ensures
            n == self@.len(),
    {
        self.inner.len() - 1
    }

    /// Returns whether no unit stands before the terminator.
    pub fn is_empty(&self) -> (b: bool)
        requires
            self.wf(),
        ensures
            b == (self@.len() == 0),
    {
        self.len() == 0
    }

    /// Makes a string of the units of `v` before its first terminator, or of
    /// all of them where there is none.
    pub fn new_unchecked(v: Vec<u16>) -> (r: Self)
        ensures
            r.with_nul() == c_string(v@, 0u16),
            r@ == v@.take(c_len(v@, 0u16) as int),
            r.wf(),
    {
        let mut v = v;
        let ghost given = v@;
        let len: usize = wcsnlen(v.as_slice(), v.len());
        proof {
            lemma_c_len_bounds(given, 0u16);
            lemma_c_string_is_c_string(given, 0u16);
        }
        if len == v.len() {
            v.push(0);
        } else {
            v.truncate(len + 1);
        }
        assert(v@ =~= c_string(given, 0u16));
        WString { inner: v }
    }

    /// Makes a string of the units that the bytes of `v` hold, the low byte
    /// of each unit first, before the first unit that is a terminator. A
    /// last byte without a partner counts as a unit of its own.
    pub fn new_c_unchecked(v: Vec<u8>) -> (r: Self)
        ensures
            r.with_nul() == c_string(units_of_bytes(v@), 0u16),
            r@ == units_of_bytes(v@).take(c_len(units_of_bytes(v@), 0u16) as int),
            r.wf(),
    {
        Self::new_unchecked(pack(v.as_slice()))
    }

    /// Takes `v` as the buffer of a string.
    pub fn new_nul_unchecked(v: Vec<u16>) -> (r: Self)
        requires
            is_c_string(v@, 0u16),
        ensures
            r.with_nul() == v@,
            r.wf(),
    {
        WString { inner: v }
    }

    /// Overwrites the whole buffer with zeros, for a string that is about to
    /// be released. What is left is no string unless it was empty.
    pub fn wipe(&mut self)
        ensures
            final(self).with_nul() == Seq::new(old(self).with_nul().len(), |i: int| 0u16),
    {
        let n: usize = self.inner.len();
        let mut i: usize = 0;
        while i < n
            invariant
                n == self.inner@.len(),
                0 <= i <= n,
                forall|j: int| 0 <= j < i ==> self.inner@[j] == 0u16,
            decreases n - i,
        {
            self.inner[i] = 0;
            i += 1;
        }
        assert(self.inner@ =~= Seq::new(n as nat, |i: int| 0u16));
    }

    /// Starts the conversion of UTF-8 text to a wide string.
    pub fn from_str(x: &str) -> (r: Conversion)
        ensures
            r@ == ConversionView::widened(
                false,
                widening(CP_UTF8, MB_ERR_INVALID_CHARS, x.spec_bytes()),
                None,
            ),
    {
        Conversion::widen(false, utf8_to_wide(x), None)
    }

    /// Starts the conversion of UTF-8 text to a wide string that has the
    /// platform check nothing.
    pub fn from_str_lossy(x: &str) -> (r: Conversion)
        ensures
            r@ == ConversionView::widened(true, widening(CP_UTF8, 0, x.spec_bytes()), None),
    {
        Conversion::widen(true, utf8_to_wide_lossy(x), None)
    }

    /// Starts the conversion to UTF-8 text that fails on a unit that is no
    /// character.
    pub fn try_to_string(&self) -> (r: Conversion)
        requires
            self.wf(),
        ensures
            r@ == ConversionView::narrowed(
                false,
                narrow_start(false, Target::Utf8, self.with_nul()),
                Target::Utf8,
            ),
    {
        self.as_c_str().try_to_string()
    }

    /// Starts the conversion to UTF-8 text that puts the replacement
    /// character in place of what is no character.
    pub fn to_string_lossy(&self) -> (r: Conversion)
        requires
            self.wf(),
        ensures
            r@ == ConversionView::narrowed(
                true,
                narrow_start(true, Target::Utf8, self.with_nul()),
                Target::Utf8,
            ),
    {
        self.as_c_str().to_string_lossy()
    }

    /// Starts the conversion to a multi-byte string that fails where a unit
    /// has no exact mapping.
    pub fn to_astring(&self) -> (r: Conversion)
        requires
            self.wf(),
        ensures
            r@ == ConversionView::narrowed(
                false,
                narrow_start(false, Target::MultiByte, self.with_nul()),
                Target::MultiByte,
            ),
    {
        self.as_c_str().to_astring()
    }

    /// Starts the conversion to a multi-byte string that accepts the
    /// platform's default character where a unit has no exact mapping.
    pub fn to_astring_lossy(&self) -> (r: Conversion)
        requires
            self.wf(),
        ensures
            r@ == ConversionView::narrowed(
                true,
                narrow_start(true, Target::MultiByte, self.with_nul()),
                Target::MultiByte,
            ),
    {
        self.as_c_str().to_astring_lossy()
    }

    /// Copies the string at the start of `buf`, up to its first terminator.
    pub fn clone_from_raw(buf: &[u16]) -> (r: Self)
        ensures
            r.with_nul() == c_string(buf@, 0u16),
            r@ == buf@.take(c_len(buf@, 0u16) as int),
            r.wf(),
    {
        proof {
            lemma_c_len_bounds(buf@, 0u16);
        }
        Self::clone_from_raw_s_unchecked(buf, crate::raw::wcslen(buf))
    }

    /// Copies the string at the start of `buf`, up to its first terminator
    /// and to no more than `len` units.
    pub fn clone_from_raw_s(buf: &[u16], len: usize) -> (r: Self)
        ensures
            r.with_nul() == buf@.take(clamped(buf@, 0u16, len as int)).push(0u16),
            r@ == buf@.take(clamped(buf@, 0u16, len as int)),
            r.wf(),
    {
        let len2: usize = wcsnlen(buf, len);
        proof {
            lemma_c_len_bounds(buf@, 0u16);
            let k = c_len(buf@, 0u16) as int;
            assert forall|i: int| 0 <= i < len2 implies #[trigger] buf@.take(len2 as int)[i]
                != 0u16 by {
                assert(buf@.take(k)[i] == buf@[i]);
            }
        }
        Self::clone_from_raw_s_unchecked(buf, len2)
    }

    /// Copies the first `len` units of `buf` as the string, without looking
    /// for a terminator among them.
    pub fn clone_from_raw_s_unchecked(buf: &[u16], len: usize) -> (r: Self)
        requires
            len <= buf@.len(),
            nul_free(buf@.take(len as int), 0u16),
        ensures
            r.with_nul() == buf@.take(len as int).push(0u16),
            r@ == buf@.take(len as int),
            r.wf(),
    {
        let mut v: Vec<u16> = slice_to_vec(slice_subrange(buf, 0, len));
        v.push(0);
        assert(v@.drop_last() =~= buf@.take(len as int));
        WString { inner: v }
    }
}

/// An owned multi-byte string.
#[derive(Debug, Eq, Ord, Hash)]
pub struct AString {
    inner: Vec<u8>,
}

impl View for AString {
    type V = Seq<u8>;

    /// The bytes of the string, without the terminator.
    open spec fn view(&self) -> Seq<u8> {
        self.with_nul().drop_last()
    }
}

impl AString {
    /// The buffer: the bytes of the string and the terminator.
    pub closed spec fn with_nul(&self) -> Seq<u8> {
        self.inner@
    }

    /// The buffer ends in a terminator and holds no other.
    pub open spec fn wf(&self) -> bool {
        is_c_string(self.with_nul(), 0u8)
    }

    /// Returns the buffer, terminator included.
    pub fn as_bytes_with_nul(&self) -> (r: &[u8])
        ensures
            r@ == self.with_nul(),
    {
        self.inner.as_slice()
    }

    /// Returns the bytes of the string.
    pub fn as_bytes(&self) -> (r: &[u8])
        requires
            self.wf(),
        ensures
            r@ == self@,
    {
        let n: usize = self.inner.len();
        slice_subrange(self.inner.as_slice(), 0, n - 1)
    }

    /// Returns a view of the whole string.
    pub fn as_c_str(&self) -> (r: AStr<'_>)
        requires
            self.wf(),
        ensures
            r.with_nul() == self.with_nul(),
            r@ == self@,
            r.is_terminated(),
    {
        AStr::from_bytes_with_nul_unchecked(self.inner.as_slice())
    }

    /// Returns the number of bytes before the terminator.
    pub fn len(&self) -> (n: usize)
        requires
            self.wf(),
        ensures
            n == self@.len(),
    {
        self.inner.len() - 1
    }

    /// Returns whether no byte stands before the terminator.
    pub fn is_empty(&self) -> (b: bool)
        requires
            self.wf(),
        ensures
            b == (self@.len() == 0),
    {
        self.len() == 0
    }

    /// Makes a string of the bytes of `v` before its first terminator, or of
    /// all of them where there is none.
    pub fn new_unchecked(v: Vec<u8>) -> (r: Self)
        ensures
            r.with_nul() == c_string(v@, 0u8),
            r@ == v@.take(c_len(v@, 0u8) as int),
            r.wf(),
    {
        let mut v = v;
        let ghost given = v@;
        let len: usize = strnlen(v.as_slice(), v.len());
        proof {
            lemma_c_len_bounds(given, 0u8);
            lemma_c_string_is_c_string(given, 0u8);
        }
        if len == v.len() {
            v.push(0);
        } else {
            v.truncate(len + 1);
        }
        assert(v@ =~= c_string(given, 0u8));
        AString { inner: v }
    }

    /// Takes `v` as the buffer of a string.
    pub fn new_nul_unchecked(v: Vec<u8>) -> (r: Self)
        requires
            is_c_string(v@, 0u8),
        ensures
            r.with_nul() == v@,
            r.wf(),
    {
        AString { inner: v }
    }

    /// Overwrites the whole buffer with zeros, for a string that is about to
    /// be released. What is left is no string unless it was empty.
    pub fn wipe(&mut self)
        ensures
            final(self).with_nul() == Seq::new(old(self).with_nul().len(), |i: int| 0u8),
    {
        let n: usize = self.inner.len();
        let mut i: usize = 0;
        while i < n
            invariant
                n == self.inner@.len(),
                0 <= i <= n,
                forall|j: int| 0 <= j < i ==> self.inner@[j] == 0u8,
            decreases n - i,
        {
            self.inner[i] = 0;
            i += 1;
        }
        assert(self.inner@ =~= Seq::new(n as nat, |i: int| 0u8));
    }

    /// Starts the strict conversion of UTF-8 text to a multi-byte string, by
    /// way of a wide string.
    pub fn from_str(x: &str) -> (r: Conversion)
        ensures
            r@ == ConversionView::widened(
                false,
                widening(CP_UTF8, MB_ERR_INVALID_CHARS, x.spec_bytes()),
                Some(Target::MultiByte),
            ),
    {
        Conversion::widen(false, utf8_to_wide(x), Some(Target::MultiByte))
    }

    /// Starts the lossy conversion of UTF-8 text to a multi-byte string, by
    /// way of a wide string.
    pub fn from_str_lossy(x: &str) -> (r: Conversion)
        ensures
            r@ == ConversionView::widened(
                true,
                widening(CP_UTF8, 0, x.spec_bytes()),
                Some(Target::MultiByte),
            ),
    {
        Conversion::widen(true, utf8_to_wide_lossy(x), Some(Target::MultiByte))
    }

    /// Starts the conversion to a wide string that fails on bytes that map
    /// to no character.
    pub fn to_wstring(&self) -> (r: Conversion)
        requires
            self.wf(),
        ensures
            r@ == ConversionView::widened(
                false,
                widening(CP_ACP, MB_ERR_INVALID_CHARS, self@),
                None,
            ),
    {
        self.as_c_str().to_wstring()
    }

    /// Starts the conversion to a wide string that accepts the platform's
    /// default for bytes that map to no character.
    pub fn to_wstring_lossy(&self) -> (r: Conversion)
        requires
            self.wf(),
        ensures
            r@ == ConversionView::widened(true, widening(CP_ACP, 0, self@), None),
    {
        self.as_c_str().to_wstring_lossy()
    }

    /// Starts the strict conversion to UTF-8 text, by way of a wide string.
    pub fn try_to_string(&self) -> (r: Conversion)
        requires
            self.wf(),
        ensures
            r@ == ConversionView::widened(
                false,
                widening(CP_ACP, MB_ERR_INVALID_CHARS, self@),
                Some(Target::Utf8),
            ),
    {
        self.as_c_str().try_to_string()
    }

    /// Starts the lossy conversion to UTF-8 text, by way of a wide string.
    pub fn to_string_lossy(&self) -> (r: Conversion)
        requires
            self.wf(),
        ensures
            r@ == ConversionView::widened(true, widening(CP_ACP, 0, self@), Some(Target::Utf8)),
    {
        self.as_c_str().to_string_lossy()
    }

    /// Copies the string at the start of `buf`, up to its first terminator.
    pub fn clone_from_raw(buf: &[u8]) -> (r: Self)
        ensures
            r.with_nul() == c_string(buf@, 0u8),
            r@ == buf@.take(c_len(buf@, 0u8) as int),
            r.wf(),
    {
        proof {
            lemma_c_len_bounds(buf@, 0u8);
        }
        Self::clone_from_raw_s_unchecked(buf, crate::raw::strlen(buf))
    }

    /// Copies the string at the start of `buf`, up to its first terminator
    /// and to no more than `len` bytes.
    pub fn clone_from_raw_s(buf: &[u8], len: usize) -> (r: Self)
        ensures
            r.with_nul() == buf@.take(clamped(buf@, 0u8, len as int)).push(0u8),
            r@ == buf@.take(clamped(buf@, 0u8, len as int)),
            r.wf(),
    {
        let len2: usize = strnlen(buf, len);
        proof {
            lemma_c_len_bounds(buf@, 0u8);
            let k = c_len(buf@, 0u8) as int;
            assert forall|i: int| 0 <= i < len2 implies #[trigger] buf@.take(len2 as int)[i]
                != 0u8 by {
                assert(buf@.take(k)[i] == buf@[i]);
            }
        }
        Self::clone_from_raw_s_unchecked(buf, len2)
    }

    /// Copies the first `len` bytes of `buf` as the string, without looking
    /// for a terminator among them.
    pub fn clone_from_raw_s_unchecked(buf: &[u8], len: usize) -> (r: Self)
        requires
            len <= buf@.len(),
            nul_free(buf@.take(len as int), 0u8),
        ensures
            r.with_nul() == buf@.take(len as int).push(0u8),
            r@ == buf@.take(len as int),
            r.wf(),
    {
        let mut v: Vec<u8> = slice_to_vec(slice_subrange(buf, 0, len));
        v.push(0);
        assert(v@.drop_last() =~= buf@.take(len as int));
        AString { inner: v }
    }
}

impl Clone for WString {
    fn clone(&self) -> (r: Self)
        ensures
            r.with_nul() == self.with_nul(),
    {
        WString { inner: slice_to_vec(self.inner.as_slice()) }
    }
}

impl Clone for AString {
    fn clone(&self) -> (r: Self)
        ensures
            r.with_nul() == self.with_nul(),
    {
        AString { inner: slice_to_vec(self.inner.as_slice()) }
    }
}

} // verus!
