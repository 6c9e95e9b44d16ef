//! The codec primitives: what to ask of the platform's two conversion
//! functions, and what to make of their replies.
//!
//! One transcoding takes up to three native calls. The first hands over a
//! buffer of an estimated size. Where the platform finds it too small, a
//! second call measures and a third fills a buffer of exactly that size.

use vstd::prelude::*;
use vstd::slice::slice_to_vec;
use vstd::string::StringSliceAdditionalSpecFns;

verus! {

/// The code page of the process's multi-byte encoding.
pub const CP_ACP: u32 = 0;

/// The code page of UTF-8.
pub const CP_UTF8: u32 = 65001;

/// To wide: fail on a byte sequence that maps to no character.
pub const MB_ERR_INVALID_CHARS: u32 = 0x8;

/// To bytes: fail on a unit that is no character.
pub const WC_ERR_INVALID_CHARS: u32 = 0x80;

/// To bytes: put no similar character in place of one that has no exact mapping.
pub const WC_NO_BEST_FIT_CHARS: u32 = 0x400;

/// A length does not fit the platform's integer, or a reply contradicts its call.
pub const ERROR_INVALID_PARAMETER: u32 = 0x57;

/// The destination buffer is too small.
pub const ERROR_INSUFFICIENT_BUFFER: u32 = 0x7a;

/// A character has no mapping in the target encoding.
pub const ERROR_NO_UNICODE_TRANSLATION: u32 = 0x459;

/// A value, or the platform's error code.
pub type OsResult<T> = Result<T, u32>;

/// One call of a native conversion function, with its lengths in the
/// platform's integer type.
#[derive(Clone, Copy, Debug, PartialEq, Eq, Structural)]
pub struct NativeCall {
    /// The code page of the bytes: of the source when converting to wide, of
    /// the destination when converting to bytes.
    pub code_page: u32,
    /// The flags of the conversion.
    pub flags: u32,
    /// The number of source elements.
    pub src_len: i32,
    /// The number of elements in the destination buffer; 0 asks for the size
    /// that the result needs and writes nothing.
    pub capacity: i32,
    /// Whether the platform is to report that it put a default character in
    /// place of one without a mapping.
    pub want_used_default: bool,
}

/// What a native call left behind.
#[derive(Debug)]
pub struct NativeReply<T> {
    /// The function's return value: the number of elements written or needed,
    /// 0 for a failure.
    pub count: i32,
    /// The platform's last error code, read after the call.
    pub last_error: u32,
    /// The flag for a default character put in, not 0 where it was set.
    pub used_default: i32,
    /// The destination buffer after the call.
    pub buffer: Vec<T>,
}

/// A reply, with the buffer as a sequence.
pub struct ReplyView<T> {
    pub count: i32,
    pub last_error: u32,
    pub used_default: i32,
    pub buffer: Seq<T>,
}

impl<T> View for NativeReply<T> {
    type V = ReplyView<T>;

    open spec fn view(&self) -> ReplyView<T> {
        ReplyView {
            count: self.count,
            last_error: self.last_error,
            used_default: self.used_default,
            buffer: self.buffer@,
        }
    }
}

impl<T> ReplyView<T> {
    /// The size that a measuring call reported. A count of 0 is the
    /// platform's failure; a negative one is no answer to any call.
    pub open spec fn measured(self) -> Result<i32, u32> {
        if self.count == 0 {
            Err(self.last_error)
        } else if self.count < 0 {
            Err(ERROR_INVALID_PARAMETER)
        } else {
            Ok(self.count)
        }
    }

    /// The number of elements that a converting call wrote. The count cannot
    /// exceed the buffer that came back.
    pub open spec fn written(self) -> Result<i32, u32> {
        if self.count == 0 {
            Err(self.last_error)
        } else if self.count < 0 || self.count > self.buffer.len() {
            Err(ERROR_INVALID_PARAMETER)
        } else {
            Ok(self.count)
        }
    }
}

impl<T> NativeReply<T> {
    /// Reads the reply to a measuring call.
    pub fn measured(&self) -> (r: OsResult<i32>)
        ensures
            r == self@.measured(),
    {
        if self.count == 0 {
            Err(self.last_error)
        } else if self.count < 0 {
            Err(ERROR_INVALID_PARAMETER)
        } else {
            Ok(self.count)
        }
    }

    /// Reads the reply to a converting call.
    pub fn written(&self) -> (r: OsResult<i32>)
        ensures
            r == self@.written(),
    {
        if self.count == 0 {
            Err(self.last_error)
        } else if self.count < 0 {
            Err(ERROR_INVALID_PARAMETER)
        } else if self.count as usize > self.buffer.len() {
            Err(ERROR_INVALID_PARAMETER)
        } else {
            Ok(self.count)
        }
    }
}

/// The call for `src_len` source elements and `capacity` destination
/// elements, or `ERROR_INVALID_PARAMETER` where a length does not fit the
/// platform's integer.
pub open spec fn marshalled(
    code_page: u32,
    flags: u32,
    src_len: int,
    capacity: int,
    want_used_default: bool,
) -> Result<NativeCall, u32> {
    if src_len > i32::MAX || capacity > i32::MAX {
        Err(ERROR_INVALID_PARAMETER)
    } else {
        Ok(
            NativeCall {
                code_page,
                flags,
                src_len: src_len as i32,
                capacity: capacity as i32,
                want_used_default,
            },
        )
    }
}

/// Prepares one call that converts `mb_len` bytes into a buffer of `wc_len`
/// units, or refuses lengths that do not fit the platform's integer.
pub fn multi_byte_to_wide_char(code_page: u32, mb_flags: u32, mb_len: usize, wc_len: usize) -> (r:
    OsResult<NativeCall>)
    ensures
        r == marshalled(code_page, mb_flags, mb_len as int, wc_len as int, false),
{
    if mb_len > 0x7fff_ffff || wc_len > 0x7fff_ffff {
        Err(ERROR_INVALID_PARAMETER)
    } else {
        Ok(
            NativeCall {
                code_page,
                flags: mb_flags,
                src_len: mb_len as i32,
                capacity: wc_len as i32,
                want_used_default: false,
            },
        )
    }
}

/// Prepares one call that converts `wc_len` units into a buffer of `mb_len`
/// bytes, or refuses lengths that do not fit the platform's integer.
pub fn wide_char_to_multi_byte(
    code_page: u32,
    wc_flags: u32,
    wc_len: usize,
    mb_len: usize,
    used_default_char: bool,
) -> (r: OsResult<NativeCall>)
    ensures
        r == marshalled(code_page, wc_flags, wc_len as int, mb_len as int, used_default_char),
{
    if wc_len > 0x7fff_ffff || mb_len > 0x7fff_ffff {
        Err(ERROR_INVALID_PARAMETER)
    } else {
        Ok(
            NativeCall {
                code_page,
                flags: wc_flags,
                src_len: wc_len as i32,
                capacity: mb_len as i32,
                want_used_default: used_default_char,
            },
        )
    }
}

#[derive(Debug)]
enum Phase<T> {
    Estimated,
    Measuring,
    Sized(i32),
    Finished(OsResult<Vec<T>>),
}

/// Where a transcoding stands.
pub enum PhaseView<T> {
    /// A call with the estimated capacity is outstanding.
    Estimated,
    /// A call that only measures is outstanding.
    Measuring,
    /// A call with the measured capacity is outstanding.
    Sized(i32),
    /// No call is outstanding: the transcoding has its result.
    Finished(Result<Seq<T>, u32>),
}

impl<T> View for Phase<T> {
    type V = PhaseView<T>;

    closed spec fn view(&self) -> PhaseView<T> {
        match self {
            Phase::Estimated => PhaseView::Estimated,
            Phase::Measuring => PhaseView::Measuring,
            Phase::Sized(n) => PhaseView::Sized(*n),
            Phase::Finished(Ok(v)) => PhaseView::Finished(Ok(v@)),
            Phase::Finished(Err(e)) => PhaseView::Finished(Err(*e)),
        }
    }
}

/// One transcoding of `S` elements into `T` elements, from its first native
/// call to its result.
#[derive(Debug)]
pub struct Transcode<S, T> {
    src: Vec<S>,
    call: NativeCall,
    phase: Phase<T>,
}

/// A transcoding as a mathematical value.
pub struct TranscodeView<S, T> {
    /// The source elements, as they are handed to every call.
    pub src: Seq<S>,
    /// The first call; the later ones differ from it in the capacity and in
    /// the request for the default-character flag.
    pub call: NativeCall,
    /// Where the transcoding stands.
    pub phase: PhaseView<T>,
}

impl<S, T> View for Transcode<S, T> {
    type V = TranscodeView<S, T>;

    closed spec fn view(&self) -> TranscodeView<S, T> {
        TranscodeView { src: self.src@, call: self.call, phase: self.phase@ }
    }
}

impl<S, T> TranscodeView<S, T> {
    /// A transcoding of `src` that has made no call yet. Where the first call
    /// could be prepared, it stands in `phase`; where the lengths were
    /// refused, it has failed already.
    pub open spec fn started(src: Seq<S>, first: Result<NativeCall, u32>, phase: PhaseView<T>)
        -> Self {
        match first {
            Ok(call) => TranscodeView { src, call, phase },
            Err(e) => TranscodeView {
                src,
                call: NativeCall {
                    code_page: 0,
                    flags: 0,
                    src_len: 0,
                    capacity: 0,
                    want_used_default: false,
                },
                phase: PhaseView::Finished(Err(e)),
            },
        }
    }

    /// A transcoding that has made no call yet and asks first for a
    /// conversion into `capacity` elements.
    pub open spec fn begin(
        code_page: u32,
        flags: u32,
        src: Seq<S>,
        capacity: int,
        want_used_default: bool,
    ) -> Self {
        Self::started(
            src,
            marshalled(code_page, flags, src.len() as int, capacity, want_used_default),
            PhaseView::Estimated,
        )
    }

    /// A transcoding that has made no call yet and asks first for the size of
    /// the result.
    pub open spec fn begin_measured(
        code_page: u32,
        flags: u32,
        src: Seq<S>,
        want_used_default: bool,
    ) -> Self {
        Self::started(
            src,
            marshalled(code_page, flags, src.len() as int, 0, want_used_default),
            PhaseView::Measuring,
        )
    }

    /// While a call is outstanding, its source length is that of the source
    /// and its capacity is not negative. A result holds at least one element.
    pub open spec fn wf(self) -> bool {
        &&& !(self.phase is Finished) ==> self.call.src_len == self.src.len()
        &&& self.phase is Estimated ==> self.call.capacity >= 0
        &&& self.phase matches PhaseView::Sized(n) ==> n > 0
        &&& self.phase matches PhaseView::Finished(Ok(v)) ==> v.len() >= 1
    }

    /// The call to make next; none once the transcoding has its result.
    pub open spec fn pending(self) -> Option<NativeCall> {
        match self.phase {
            PhaseView::Estimated => Some(self.call),
            PhaseView::Measuring => Some(
                NativeCall { capacity: 0, want_used_default: false, ..self.call },
            ),
            PhaseView::Sized(n) => Some(NativeCall { capacity: n, ..self.call }),
            PhaseView::Finished(_) => None,
        }
    }

    /// The result, once there is one.
    pub open spec fn outcome(self) -> Option<Result<Seq<T>, u32>> {
        match self.phase {
            PhaseView::Finished(r) => Some(r),
            _ => None,
        }
    }

    /// The number of native calls that may still be made.
    pub open spec fn calls_left(self) -> nat {
        match self.phase {
            PhaseView::Estimated => 3,
            PhaseView::Measuring => 2,
            PhaseView::Sized(_) => 1,
            PhaseView::Finished(_) => 0,
        }
    }

    /// The platform was asked to report a default character and reports one:
    /// some source element has no exact mapping.
    pub open spec fn substituted(self, reply: ReplyView<T>) -> bool {
        self.call.want_used_default && reply.used_default != 0
    }

    /// This transcoding in another phase.
    pub open spec fn at(self, phase: PhaseView<T>) -> Self {
        TranscodeView { phase, ..self }
    }

    /// The transcoding after the reply to its pending call.
    ///
    /// The first call ends the transcoding unless the buffer was too small;
    /// then the size is measured, and a buffer of that size is filled. A
    /// reported default character fails a conversion that asked for the
    /// report. The filling call must write as much as was measured. A reply
    /// to a transcoding that has its result changes nothing.
    pub open spec fn resume(self, reply: ReplyView<T>) -> Self {
        match self.phase {
            PhaseView::Estimated => match reply.written() {
                Ok(n) => if self.substituted(reply) {
                    self.at(PhaseView::Finished(Err(ERROR_NO_UNICODE_TRANSLATION)))
                } else {
                    self.at(PhaseView::Finished(Ok(reply.buffer.take(n as int))))
                },
                Err(e) => if e == ERROR_INSUFFICIENT_BUFFER {
                    self.at(PhaseView::Measuring)
                } else {
                    self.at(PhaseView::Finished(Err(e)))
                },
            },
            PhaseView::Measuring => match reply.measured() {
                Ok(n) => self.at(PhaseView::Sized(n)),
                Err(e) => self.at(PhaseView::Finished(Err(e))),
            },
            PhaseView::Sized(size) => match reply.written() {
                Ok(n) => if self.substituted(reply) {
                    self.at(PhaseView::Finished(Err(ERROR_NO_UNICODE_TRANSLATION)))
                } else if n != size {
                    self.at(PhaseView::Finished(Err(ERROR_INVALID_PARAMETER)))
                } else {
                    self.at(PhaseView::Finished(Ok(reply.buffer.take(n as int))))
                },
                Err(e) => self.at(PhaseView::Finished(Err(e))),
            },
            PhaseView::Finished(_) => self,
        }
    }

    /// A transcoding keeps its source, its code page and its flags, stays
    /// well-formed, and every reply to a pending call brings it nearer to its
    /// result: no transcoding makes more than three calls.
    pub proof fn lemma_resume(self, reply: ReplyView<T>)
        requires
            self.wf(),
        ensures
            self.resume(reply).wf(),
            self.resume(reply).src == self.src,
            self.resume(reply).call == self.call,
            self.pending() is Some ==> self.resume(reply).calls_left() < self.calls_left(),
            self.pending() is None <==> self.outcome() is Some,
            self.pending() is None <==> self.calls_left() == 0,
    {
    }

    /// A successful result holds at least one element, and no more than the
    /// buffer of the reply that brought it.
    pub proof fn lemma_resume_result(self, reply: ReplyView<T>)
        requires
            self.pending() is Some,
        ensures
            self.resume(reply).outcome() matches Some(Ok(v)) ==> 0 < v.len() <= reply.buffer.len()
                && v == reply.buffer.take(reply.count as int),
    {
    }
}

impl<S, T> Transcode<S, T> {
    #[verifier::type_invariant]
    closed spec fn inv(self) -> bool {
        self@.wf()
    }

    /// Starts a transcoding of `src` with the call `first`, which converts
    /// unless `measure` is set.
    fn started(src: Vec<S>, first: OsResult<NativeCall>, measure: bool) -> (r: Self)
        requires
            first matches Ok(call) ==> call.src_len == src@.len() && call.capacity >= 0,
        ensures
            r@ == TranscodeView::<S, T>::started(
                src@,
                first,
                if measure {
                    PhaseView::Measuring
                } else {
                    PhaseView::Estimated
                },
            ),
    {
        match first {
            Ok(call) => Transcode {
                src,
                call,
                phase: if measure {
                    Phase::Measuring
                } else {
                    Phase::Estimated
                },
            },
            Err(e) => Transcode {
                src,
                call: NativeCall {
                    code_page: 0,
                    flags: 0,
                    src_len: 0,
                    capacity: 0,
                    want_used_default: false,
                },
                phase: Phase::Finished(Err(e)),
            },
        }
    }

    /// Returns the call to make next, or `None` once the transcoding has its
    /// result. The call's source is `source()`, and its source length is the
    /// length of that.
    pub fn pending(&self) -> (r: Option<NativeCall>)
        ensures
            r == self@.pending(),
            self@.wf(),
    {
        proof {
            use_type_invariant(self);
        }
        match &self.phase {
            Phase::Estimated => Some(self.call),
            Phase::Measuring => Some(
                NativeCall {
                    code_page: self.call.code_page,
                    flags: self.call.flags,
                    src_len: self.call.src_len,
                    capacity: 0,
                    want_used_default: false,
                },
            ),
            Phase::Sized(n) => Some(
                NativeCall {
                    code_page: self.call.code_page,
                    flags: self.call.flags,
                    src_len: self.call.src_len,
                    capacity: *n,
                    want_used_default: self.call.want_used_default,
                },
            ),
            Phase::Finished(_) => None,
        }
    }

    /// Returns the source elements of every call.
    pub fn source(&self) -> (r: &[S])
        ensures
            r@ == self@.src,
    {
        self.src.as_slice()
    }

    /// Takes the reply to the pending call and returns the transcoding that
    /// follows.
    pub fn resume(self, reply: NativeReply<T>) -> (r: Self)
        ensures
            r@ == self@.resume(reply@),
    {
        proof {
            use_type_invariant(&self);
            self@.lemma_resume(reply@);
        }
        let Transcode { src, call, phase } = self;
        let substituted: bool = call.want_used_default && reply.used_default != 0;
        match phase {
            Phase::Estimated => match reply.written() {
                Ok(n) => if substituted {
                    Transcode { src, call, phase: Phase::Finished(Err(ERROR_NO_UNICODE_TRANSLATION)) }
                } else {
                    let mut buffer = reply.buffer;
                    buffer.truncate(n as usize);
                    Transcode { src, call, phase: Phase::Finished(Ok(buffer)) }
                },
                Err(e) => if e == ERROR_INSUFFICIENT_BUFFER {
                    Transcode { src, call, phase: Phase::Measuring }
                } else {
                    Transcode { src, call, phase: Phase::Finished(Err(e)) }
                },
            },
            Phase::Measuring => match reply.measured() {
                Ok(n) => Transcode { src, call, phase: Phase::Sized(n) },
                Err(e) => Transcode { src, call, phase: Phase::Finished(Err(e)) },
            },
            Phase::Sized(size) => match reply.written() {
                Ok(n) => if substituted {
                    Transcode { src, call, phase: Phase::Finished(Err(ERROR_NO_UNICODE_TRANSLATION)) }
                } else if n != size {
                    Transcode { src, call, phase: Phase::Finished(Err(ERROR_INVALID_PARAMETER)) }
                } else {
                    let mut buffer = reply.buffer;
                    buffer.truncate(n as usize);
                    Transcode { src, call, phase: Phase::Finished(Ok(buffer)) }
                },
                Err(e) => Transcode { src, call, phase: Phase::Finished(Err(e)) },
            },
            Phase::Finished(r) => Transcode { src, call, phase: Phase::Finished(r) },
        }
    }

    /// Returns the result, or the transcoding itself while a call is
    /// outstanding.
    pub fn finish(self) -> (r: Result<OsResult<Vec<T>>, Self>)
        ensures
            self@.wf(),
            r matches Ok(Ok(v)) ==> self@.outcome() == Some(Ok::<Seq<T>, u32>(v@)),
            r matches Ok(Err(e)) ==> self@.outcome() == Some(Err::<Seq<T>, u32>(e)),
            r matches Err(t) ==> self@.outcome() is None && t@ == self@,
    {
        proof {
            use_type_invariant(&self);
        }
        let Transcode { src, call, phase } = self;
        match phase {
            Phase::Finished(r) => Ok(r),
            Phase::Estimated => Err(Transcode { src, call, phase: Phase::Estimated }),
            Phase::Measuring => Err(Transcode { src, call, phase: Phase::Measuring }),
            Phase::Sized(n) => Err(Transcode { src, call, phase: Phase::Sized(n) }),
        }
    }
}

/// The source that is handed to the platform for `x`: the platform takes no
/// empty source, so a single terminator stands for one.
pub open spec fn source_of<T>(x: Seq<T>, nul: T) -> Seq<T> {
    if x.len() == 0 {
        seq![nul]
    } else {
        x
    }
}

/// The transcoding of the bytes `x` to wide units, before its first call. A
/// result has at most one unit for each byte, so the first buffer has as many
/// units as the source has bytes.
pub open spec fn widening(code_page: u32, mb_flags: u32, x: Seq<u8>) -> TranscodeView<u8, u16> {
    let src = source_of(x, 0u8);
    TranscodeView::begin(code_page, mb_flags, src, src.len() as int, false)
}

/// The transcoding of the wide units `x` to bytes, before its first call.
/// The first buffer has four bytes for each unit of the source.
pub open spec fn narrowing(code_page: u32, wc_flags: u32, x: Seq<u16>, used_default_char: bool)
    -> TranscodeView<u16, u8> {
    let src = source_of(x, 0u16);
    TranscodeView::begin(code_page, wc_flags, src, 4 * (src.len() as int), used_default_char)
}

/// The flags of the strict conversion from wide units to UTF-8.
pub open spec fn wc_strict_flags() -> u32 {
    0x480
}

/// Starts the conversion of the bytes `x` to wide units with a buffer of the
/// estimated size.
pub fn multi_byte_to_wide_char_wrap(code_page: u32, mb_flags: u32, x: &[u8]) -> (r: Transcode<
    u8,
    u16,
>)
    ensures
        r@ == widening(code_page, mb_flags, x@),
{
    let src: Vec<u8> = if x.len() == 0 {
        vec![0u8]
    } else {
        slice_to_vec(x)
    };
    assert(src@ =~= source_of(x@, 0u8));
    let first = multi_byte_to_wide_char(code_page, mb_flags, src.len(), src.len());
    Transcode::started(src, first, false)
}

/// Starts the conversion of the bytes `x` to wide units by measuring the
/// result.
pub fn multi_byte_to_wide_char2(code_page: u32, mb_flags: u32, x: &[u8]) -> (r: Transcode<u8, u16>)
    ensures
        r@ == TranscodeView::<u8, u16>::begin_measured(code_page, mb_flags, x@, false),
{
    let first = multi_byte_to_wide_char(code_page, mb_flags, x.len(), 0);
    Transcode::started(slice_to_vec(x), first, true)
}

/// Starts the conversion of the wide units `x` to bytes with a buffer of the
/// estimated size. With `used_default_char` the conversion fails where a unit
/// has no exact mapping.
pub fn wide_char_to_multi_byte_wrap(
    code_page: u32,
    wc_flags: u32,
    x: &[u16],
    used_default_char: bool,
) -> (r: Transcode<u16, u8>)
    ensures
        r@ == narrowing(code_page, wc_flags, x@, used_default_char),
{
    let src: Vec<u16> = if x.len() == 0 {
        vec![0u16]
    } else {
        slice_to_vec(x)
    };
    assert(src@ =~= source_of(x@, 0u16));
    let n: usize = src.len();
    let capacity: usize = if n > 0x1fff_ffff {
        usize::MAX
    } else {
        4 * n
    };
    let first = wide_char_to_multi_byte(code_page, wc_flags, n, capacity, used_default_char);
    Transcode::started(src, first, false)
}

/// Starts the conversion of the wide units `x` to bytes by measuring the
/// result.
pub fn wide_char_to_multi_byte2(
    code_page: u32,
    wc_flags: u32,
    x: &[u16],
    used_default_char: bool,
) -> (r: Transcode<u16, u8>)
    ensures
        r@ == TranscodeView::<u16, u8>::begin_measured(
            code_page,
            wc_flags,
            x@,
            used_default_char,
        ),
{
    let first = wide_char_to_multi_byte(code_page, wc_flags, x.len(), 0, used_default_char);
    Transcode::started(slice_to_vec(x), first, true)
}

/// UTF-8 text to wide units, accepting whatever the platform makes of it.
pub fn utf8_to_wide_lossy(x: &str) -> (r: Transcode<u8, u16>)
    ensures
        r@ == widening(CP_UTF8, 0, x.spec_bytes()),
{
    multi_byte_to_wide_char_wrap(CP_UTF8, 0, x.as_bytes())
}

/// UTF-8 text to wide units, failing on malformed input.
pub fn utf8_to_wide(x: &str) -> (r: Transcode<u8, u16>)
    ensures
        r@ == widening(CP_UTF8, MB_ERR_INVALID_CHARS, x.spec_bytes()),
{
    multi_byte_to_wide_char_wrap(CP_UTF8, MB_ERR_INVALID_CHARS, x.as_bytes())
}

/// Wide units to UTF-8, failing on a unit that is no character.
pub fn wide_to_utf8(x: &[u16]) -> (r: Transcode<u16, u8>)
    ensures
        r@ == narrowing(CP_UTF8, wc_strict_flags(), x@, false),
{
    assert(WC_NO_BEST_FIT_CHARS | WC_ERR_INVALID_CHARS == 0x480) by (bit_vector);
    wide_char_to_multi_byte_wrap(CP_UTF8, WC_NO_BEST_FIT_CHARS | WC_ERR_INVALID_CHARS, x, false)
}

/// Wide units to UTF-8, with the replacement character for what is no
/// character.
pub fn wide_to_utf8_lossy(x: &[u16]) -> (r: Transcode<u16, u8>)
    ensures
        r@ == narrowing(CP_UTF8, WC_NO_BEST_FIT_CHARS, x@, false),
{
    wide_char_to_multi_byte_wrap(CP_UTF8, WC_NO_BEST_FIT_CHARS, x, false)
}

/// Multi-byte to wide units, failing on bytes that map to no character.
pub fn mb_to_wide(x: &[u8]) -> (r: Transcode<u8, u16>)
    ensures
        r@ == widening(CP_ACP, MB_ERR_INVALID_CHARS, x@),
{
    multi_byte_to_wide_char_wrap(CP_ACP, MB_ERR_INVALID_CHARS, x)
}

/// Multi-byte to wide units, accepting the platform's default for bytes that
/// map to no character.
pub fn mb_to_wide_lossy(x: &[u8]) -> (r: Transcode<u8, u16>)
    ensures
        r@ == widening(CP_ACP, 0, x@),
{
    multi_byte_to_wide_char_wrap(CP_ACP, 0, x)
}

/// Wide units to multi-byte, failing where a unit has no exact mapping.
pub fn wide_to_mb(x: &[u16]) -> (r: Transcode<u16, u8>)
    ensures
        r@ == narrowing(CP_ACP, WC_NO_BEST_FIT_CHARS, x@, true),
{
    wide_char_to_multi_byte_wrap(CP_ACP, WC_NO_BEST_FIT_CHARS, x, true)
}

/// Wide units to multi-byte, accepting the platform's default character
/// where a unit has no exact mapping.
pub fn wide_to_mb_lossy(x: &[u16]) -> (r: Transcode<u16, u8>)
    ensures
        r@ == narrowing(CP_ACP, WC_NO_BEST_FIT_CHARS, x@, false),
{
    wide_char_to_multi_byte_wrap(CP_ACP, WC_NO_BEST_FIT_CHARS, x, false)
}

} // verus!
