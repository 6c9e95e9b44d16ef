//! The conversion engine: every conversion between UTF-8 text, wide strings
//! and multi-byte strings, as a sequence of native calls.
//!
//! Multi-byte and UTF-8 are never converted into each other directly: such a
//! conversion goes to wide units first and on from there.

use vstd::prelude::*;
use vstd::utf8::{
    decode_utf8,
    encode_utf8,
    encode_utf8_decode_utf8,
    encode_utf8_valid_utf8,
    valid_utf8,
};
use crate::convert::{
    narrowing,
    source_of,
    wc_strict_flags,
    widening,
    MB_ERR_INVALID_CHARS,
    wide_to_mb,
    wide_to_mb_lossy,
    wide_to_utf8,
    wide_to_utf8_lossy,
    NativeCall,
    NativeReply,
    ReplyView,
    Transcode,
    TranscodeView,
    CP_ACP,
    CP_UTF8,
    ERROR_INVALID_PARAMETER,
    ERROR_NO_UNICODE_TRANSLATION,
    WC_NO_BEST_FIT_CHARS,
};
use crate::raw::{
    c_string,
    is_c_string,
    lemma_c_len_unique,
    lemma_c_string_fixed,
    lemma_c_string_is_c_string,
    nul_free,
};
use crate::string::{AString, WString};
use crate::{ConvertError, ConvertResult};

verus! {

/// `String::from_utf8` accepts exactly the byte sequences that are UTF-8,
/// and the text it returns is what they encode. This is taken on trust from
/// the standard library's documentation; nothing here proves it.
pub assume_specification[ String::from_utf8 ](vec: Vec<u8>) -> (r: Result<
    String,
    std::string::FromUtf8Error,
>)
    ensures
        r is Ok <==> valid_utf8(vec@),
        r matches Ok(s) ==> s@ == decode_utf8(vec@),
;

/// The error of `String::from_utf8`. Nothing is known of what it holds.
#[verifier::external_type_specification]
#[verifier::external_body]
pub struct ExFromUtf8Error(std::string::FromUtf8Error);

/// The encoding that a conversion from wide units produces.
#[derive(Clone, Copy, Debug, PartialEq, Eq, Structural)]
pub enum Target {
    /// The process's multi-byte encoding.
    MultiByte,
    /// UTF-8.
    Utf8,
}

/// The encodings that a conversion can end in.
#[derive(Clone, Copy, Debug, PartialEq, Eq, Structural)]
pub enum Product {
    /// A wide string.
    Wide,
    /// A multi-byte string.
    MultiByte,
    /// UTF-8 text.
    Text,
}

/// What a conversion produced.
#[derive(Debug)]
pub enum Converted {
    /// A wide string.
    Wide(WString),
    /// A multi-byte string.
    MultiByte(AString),
    /// UTF-8 text.
    Text(String),
}

/// What a conversion produced: the buffer of a string, terminator included,
/// or the characters of a text.
pub enum ConvertedView {
    Wide(Seq<u16>),
    MultiByte(Seq<u8>),
    Text(Seq<char>),
}

impl View for Converted {
    type V = ConvertedView;

    open spec fn view(&self) -> ConvertedView {
        match self {
            Converted::Wide(w) => ConvertedView::Wide(w.with_nul()),
            Converted::MultiByte(a) => ConvertedView::MultiByte(a.with_nul()),
            Converted::Text(s) => ConvertedView::Text(s@),
        }
    }
}

/// The native call that a conversion waits for, with its source.
#[derive(Debug)]
pub enum Call<'a> {
    /// A call of the function that converts bytes to wide units.
    ToWide { call: NativeCall, bytes: &'a [u8] },
    /// A call of the function that converts wide units to bytes.
    ToBytes { call: NativeCall, units: &'a [u16] },
}

#[derive(Debug)]
enum Stage {
    Widening(Transcode<u8, u16>, Option<Target>),
    Narrowing(Transcode<u16, u8>, Target),
    Done(ConvertResult<Converted>),
}

/// Where a conversion stands.
pub enum StageView {
    /// Bytes are being converted to wide units. With a target the units are
    /// converted on; without one the wide string is the result.
    Widening(TranscodeView<u8, u16>, Option<Target>),
    /// Wide units are being converted to the target encoding.
    Narrowing(TranscodeView<u16, u8>, Target),
    /// The conversion has its result.
    Done(Result<ConvertedView, ConvertError>),
}

impl View for Stage {
    type V = StageView;

    closed spec fn view(&self) -> StageView {
        match self {
            Stage::Widening(t, then) => StageView::Widening(t@, *then),
            Stage::Narrowing(t, target) => StageView::Narrowing(t@, *target),
            Stage::Done(Ok(c)) => StageView::Done(Ok(c@)),
            Stage::Done(Err(e)) => StageView::Done(Err(*e)),
        }
    }
}

/// A conversion, from its first native call to its result.
#[derive(Debug)]
pub struct Conversion {
    lossy: bool,
    stage: Stage,
}

/// A conversion as a mathematical value.
pub struct ConversionView {
    /// Whether the conversion accepts substitutes for what has no mapping.
    pub lossy: bool,
    /// Where the conversion stands.
    pub stage: StageView,
}

impl View for Conversion {
    type V = ConversionView;

    closed spec fn view(&self) -> ConversionView {
        ConversionView { lossy: self.lossy, stage: self.stage@ }
    }
}

/// The error of a failed conversion to `target`.
pub open spec fn narrow_error(target: Target, code: u32) -> ConvertError {
    match target {
        Target::MultiByte => ConvertError::ConvertToAnsiError(code),
        Target::Utf8 => ConvertError::ConvertToUtf8Error(code),
    }
}

/// The transcoding that converts the buffer `w` of a wide string to
/// `target`. The strict conversion to multi-byte asks whether a default
/// character was put in; the strict one to UTF-8 has the platform reject
/// units that are no characters.
pub open spec fn narrow_start(lossy: bool, target: Target, w: Seq<u16>) -> TranscodeView<u16, u8> {
    match target {
        Target::MultiByte => narrowing(CP_ACP, WC_NO_BEST_FIT_CHARS, w, !lossy),
        Target::Utf8 => narrowing(
            CP_UTF8,
            if lossy {
                WC_NO_BEST_FIT_CHARS
            } else {
                wc_strict_flags()
            },
            w,
            false,
        ),
    }
}

impl ConversionView {
    /// A conversion with its result.
    pub open spec fn done(lossy: bool, r: Result<ConvertedView, ConvertError>) -> Self {
        ConversionView { lossy, stage: StageView::Done(r) }
    }

    /// The conversion whose transcoding to `target` stands at `t`.
    ///
    /// The source held the place of the terminator, so the last of the bytes
    /// that come back is its translation and is taken off. What is left makes
    /// a multi-byte string, cut at its first terminator; or it makes a text,
    /// and must be UTF-8.
    pub open spec fn narrowed(lossy: bool, t: TranscodeView<u16, u8>, target: Target) -> Self {
        match t.outcome() {
            None => ConversionView { lossy, stage: StageView::Narrowing(t, target) },
            Some(Err(e)) => Self::done(lossy, Err(narrow_error(target, e))),
            Some(Ok(bytes)) => match target {
                Target::MultiByte => Self::done(
                    lossy,
                    Ok(ConvertedView::MultiByte(c_string(bytes.drop_last(), 0u8))),
                ),
                Target::Utf8 => if valid_utf8(bytes.drop_last()) {
                    Self::done(lossy, Ok(ConvertedView::Text(decode_utf8(bytes.drop_last()))))
                } else {
                    Self::done(
                        lossy,
                        Err(ConvertError::ConvertToUtf8Error(ERROR_NO_UNICODE_TRANSLATION)),
                    )
                },
            },
        }
    }

    /// The conversion whose transcoding to wide units stands at `t`.
    ///
    /// The units that come back are cut at their first terminator and make
    /// a wide string. That is the result, or the source of the conversion
    /// that follows.
    pub open spec fn widened(lossy: bool, t: TranscodeView<u8, u16>, then: Option<Target>) -> Self {
        match t.outcome() {
            None => ConversionView { lossy, stage: StageView::Widening(t, then) },
            Some(Err(e)) => Self::done(lossy, Err(ConvertError::ConvertToUnicodeError(e))),
            Some(Ok(units)) => match then {
                None => Self::done(lossy, Ok(ConvertedView::Wide(c_string(units, 0u16)))),
                Some(target) => Self::narrowed(
                    lossy,
                    narrow_start(lossy, target, c_string(units, 0u16)),
                    target,
                ),
            },
        }
    }

    /// The call that the conversion waits for; none once it has its result.
    pub open spec fn pending(self) -> Option<NativeCall> {
        match self.stage {
            StageView::Widening(t, _) => t.pending(),
            StageView::Narrowing(t, _) => t.pending(),
            StageView::Done(_) => None,
        }
    }

    /// The result, once there is one.
    pub open spec fn outcome(self) -> Option<Result<ConvertedView, ConvertError>> {
        match self.stage {
            StageView::Done(r) => Some(r),
            _ => None,
        }
    }

    /// The conversion after the reply to a call that converts to wide units.
    /// Where the conversion waits for no such call, the reply ends it with
    /// `ERROR_INVALID_PARAMETER`; a conversion that has its result keeps it.
    pub open spec fn resume_wide(self, reply: ReplyView<u16>) -> Self {
        match self.stage {
            StageView::Widening(t, then) => Self::widened(self.lossy, t.resume(reply), then),
            StageView::Narrowing(_, target) => Self::done(
                self.lossy,
                Err(narrow_error(target, ERROR_INVALID_PARAMETER)),
            ),
            StageView::Done(_) => self,
        }
    }

    /// The conversion after the reply to a call that converts to bytes.
    /// Where the conversion waits for no such call, the reply ends it with
    /// `ERROR_INVALID_PARAMETER`; a conversion that has its result keeps it.
    pub open spec fn resume_bytes(self, reply: ReplyView<u8>) -> Self {
        match self.stage {
            StageView::Narrowing(t, target) => Self::narrowed(self.lossy, t.resume(reply), target),
            StageView::Widening(_, _) => Self::done(
                self.lossy,
                Err(ConvertError::ConvertToUnicodeError(ERROR_INVALID_PARAMETER)),
            ),
            StageView::Done(_) => self,
        }
    }

    /// The number of native calls that the conversion may still make.
    pub open spec fn calls_left(self) -> nat {
        match self.stage {
            StageView::Widening(t, None) => t.calls_left(),
            StageView::Widening(t, Some(_)) => t.calls_left() + 3,
            StageView::Narrowing(t, _) => t.calls_left(),
            StageView::Done(_) => 0,
        }
    }

    /// The transcoding in progress is well-formed and has no result yet, and
    /// a string that the conversion produced ends in a terminator and holds
    /// no other.
    pub open spec fn wf(self) -> bool {
        match self.stage {
            StageView::Widening(t, _) => t.wf() && t.outcome() is None,
            StageView::Narrowing(t, _) => t.wf() && t.outcome() is None,
            StageView::Done(Ok(ConvertedView::Wide(w))) => is_c_string(w, 0u16),
            StageView::Done(Ok(ConvertedView::MultiByte(a))) => is_c_string(a, 0u8),
            StageView::Done(_) => true,
        }
    }

    /// A conversion to `target` is well-formed from the start.
    pub proof fn lemma_narrowed_wf(lossy: bool, t: TranscodeView<u16, u8>, target: Target)
        requires
            t.wf(),
        ensures
            Self::narrowed(lossy, t, target).wf(),
            Self::narrowed(lossy, t, target).lossy == lossy,
            Self::narrowed(lossy, t, target).calls_left() <= t.calls_left(),
    {
        if let Some(Ok(bytes)) = t.outcome() {
            lemma_c_string_is_c_string(bytes.drop_last(), 0u8);
        }
    }

    /// A conversion to wide units is well-formed from the start.
    pub proof fn lemma_widened_wf(lossy: bool, t: TranscodeView<u8, u16>, then: Option<Target>)
        requires
            t.wf(),
        ensures
            Self::widened(lossy, t, then).wf(),
            Self::widened(lossy, t, then).lossy == lossy,
            Self::widened(lossy, t, then).calls_left() <= t.calls_left() + if then is Some {
                3nat
            } else {
                0nat
            },
    {
        if let Some(Ok(units)) = t.outcome() {
            lemma_c_string_is_c_string(units, 0u16);
            if let Some(target) = then {
                Self::lemma_narrowed_wf(
                    lossy,
                    narrow_start(lossy, target, c_string(units, 0u16)),
                    target,
                );
            }
        }
    }

    /// Every reply leaves a conversion well-formed, and a reply to a pending
    /// call brings it nearer to its result: no conversion makes more than
    /// three calls for each encoding that it converts to.
    pub proof fn lemma_resume(self, wide: ReplyView<u16>, bytes: ReplyView<u8>)
        requires
            self.wf(),
        ensures
            self.resume_wide(wide).wf(),
            self.resume_bytes(bytes).wf(),
            self.resume_wide(wide).lossy == self.lossy,
            self.resume_bytes(bytes).lossy == self.lossy,
            self.pending() is Some ==> self.resume_wide(wide).calls_left() < self.calls_left(),
            self.pending() is Some ==> self.resume_bytes(bytes).calls_left() < self.calls_left(),
            self.pending() is None <==> self.outcome() is Some,
            self.calls_left() <= 6,
    {
        match self.stage {
            StageView::Widening(t, then) => {
                t.lemma_resume(wide);
                Self::lemma_widened_wf(self.lossy, t.resume(wide), then);
            },
            StageView::Narrowing(t, target) => {
                t.lemma_resume(bytes);
                Self::lemma_narrowed_wf(self.lossy, t.resume(bytes), target);
            },
            StageView::Done(_) => {},
        }
    }

    /// The encoding of the string or text that the conversion ends in where
    /// it does not fail; none once it has failed.
    pub open spec fn product(self) -> Option<Product> {
        match self.stage {
            StageView::Widening(_, None) => Some(Product::Wide),
            StageView::Widening(_, Some(Target::MultiByte)) => Some(Product::MultiByte),
            StageView::Widening(_, Some(Target::Utf8)) => Some(Product::Text),
            StageView::Narrowing(_, Target::MultiByte) => Some(Product::MultiByte),
            StageView::Narrowing(_, Target::Utf8) => Some(Product::Text),
            StageView::Done(Ok(ConvertedView::Wide(_))) => Some(Product::Wide),
            StageView::Done(Ok(ConvertedView::MultiByte(_))) => Some(Product::MultiByte),
            StageView::Done(Ok(ConvertedView::Text(_))) => Some(Product::Text),
            StageView::Done(Err(_)) => None,
        }
    }

    /// No reply changes what a conversion is to produce: it ends in what it
    /// set out for, or it fails.
    pub proof fn lemma_resume_keeps_product(self, wide: ReplyView<u16>, bytes: ReplyView<u8>)
        ensures
            self.resume_wide(wide).product() is Some ==> self.resume_wide(wide).product()
                == self.product(),
            self.resume_bytes(bytes).product() is Some ==> self.resume_bytes(bytes).product()
                == self.product(),
    {
    }

    /// Widening adds nothing to a string and takes nothing from it. Let `w`
    /// hold no terminator and be empty exactly where the source `b` is.
    /// Where the platform's first reply carries `w`, or for an empty source
    /// the terminator alone, the conversion gives the wide string `w`.
    pub proof fn lemma_faithful_widening(
        lossy: bool,
        code_page: u32,
        flags: u32,
        b: Seq<u8>,
        w: Seq<u16>,
        reply: ReplyView<u16>,
    )
        requires
            nul_free(w, 0u16),
            b.len() <= i32::MAX,
            b.len() == 0 <==> w.len() == 0,
            0 < reply.count <= reply.buffer.len(),
            reply.buffer.take(reply.count as int) == source_of(w, 0u16),
        ensures
            Self::widened(lossy, widening(code_page, flags, b), None).resume_wide(reply).outcome()
                == Some(Ok::<ConvertedView, ConvertError>(ConvertedView::Wide(w.push(0u16)))),
    {
        assert(w.take(w.len() as int) =~= w);
        lemma_c_len_unique(w, 0u16, w.len() as int);
        if w.len() == 0 {
            assert(c_string(seq![0u16], 0u16) =~= w.push(0u16));
        }
    }

    /// Narrowing adds nothing to a string and takes nothing from it. Let `w`
    /// and `b` hold no terminator, `w` short enough for the platform. Where
    /// the platform's first reply carries `b` and its terminator, and
    /// reports no default character to a strict conversion, the conversion
    /// of `w` gives the multi-byte string `b`, or the text that `b` encodes.
    pub proof fn lemma_faithful_narrowing(
        lossy: bool,
        target: Target,
        w: Seq<u16>,
        b: Seq<u8>,
        reply: ReplyView<u8>,
    )
        requires
            nul_free(b, 0u8),
            4 * (w.len() + 1) <= i32::MAX,
            reply.count == b.len() + 1,
            reply.count <= reply.buffer.len(),
            reply.buffer.take(reply.count as int) == b.push(0u8),
            target == Target::MultiByte && !lossy ==> reply.used_default == 0,
            target == Target::Utf8 ==> valid_utf8(b),
        ensures
            Self::narrowed(lossy, narrow_start(lossy, target, w.push(0u16)), target).resume_bytes(
                reply,
            ).outcome() == Some(
                Ok::<ConvertedView, ConvertError>(
                    match target {
                        Target::MultiByte => ConvertedView::MultiByte(b.push(0u8)),
                        Target::Utf8 => ConvertedView::Text(decode_utf8(b)),
                    },
                ),
            ),
    {
        assert(b.push(0u8).drop_last() =~= b);
        lemma_c_string_fixed(b.push(0u8), 0u8);
        assert(b.take(b.len() as int) =~= b);
        lemma_c_len_unique(b, 0u8, b.len() as int);
    }

    /// Text that goes to a wide string and back is the same text, in the
    /// strict and in the lossy conversion, where the platform's replies
    /// carry the units of the text and, on the way back, its bytes.
    pub proof fn lemma_text_round_trip(
        lossy: bool,
        text: Seq<char>,
        w: Seq<u16>,
        widen: ReplyView<u16>,
        narrow: ReplyView<u8>,
    )
        requires
            nul_free(w, 0u16),
            nul_free(encode_utf8(text), 0u8),
            4 * (w.len() + 1) <= i32::MAX,
            encode_utf8(text).len() <= i32::MAX,
            text.len() == 0 <==> w.len() == 0,
            0 < widen.count <= widen.buffer.len(),
            widen.buffer.take(widen.count as int) == source_of(w, 0u16),
            narrow.count == encode_utf8(text).len() + 1,
            narrow.count <= narrow.buffer.len(),
            narrow.buffer.take(narrow.count as int) == encode_utf8(text).push(0u8),
        ensures
            Self::widened(
                lossy,
                widening(
                    CP_UTF8,
                    if lossy {
                        0
                    } else {
                        MB_ERR_INVALID_CHARS
                    },
                    encode_utf8(text),
                ),
                None,
            ).resume_wide(widen).outcome() == Some(
                Ok::<ConvertedView, ConvertError>(ConvertedView::Wide(w.push(0u16))),
            ),
            Self::narrowed(lossy, narrow_start(lossy, Target::Utf8, w.push(0u16)), Target::Utf8)
                .resume_bytes(narrow).outcome() == Some(
                Ok::<ConvertedView, ConvertError>(ConvertedView::Text(text)),
            ),
    {
        encode_utf8_valid_utf8(text);
        encode_utf8_decode_utf8(text);
        if text.len() == 0 {
            assert(encode_utf8(text).len() == 0);
        } else {
            assert(encode_utf8(text).len() > 0) by {
                vstd::utf8::encode_utf8_first_scalar(text);
            }
        }
        Self::lemma_faithful_widening(
            lossy,
            CP_UTF8,
            if lossy {
                0
            } else {
                MB_ERR_INVALID_CHARS
            },
            encode_utf8(text),
            w,
            widen,
        );
        Self::lemma_faithful_narrowing(lossy, Target::Utf8, w, encode_utf8(text), narrow);
    }

    /// A strict conversion to multi-byte fails with "no unicode translation"
    /// as soon as the platform reports, with a count that fits its buffer,
    /// that it put a default character in.
    pub proof fn lemma_strict_substitution_fails(self, reply: ReplyView<u8>)
        requires
            self.wf(),
            !self.lossy,
            self.stage matches StageView::Narrowing(t, Target::MultiByte)
                && t.call.want_used_default && !(t.phase is Measuring),
            reply.written() is Ok,
            reply.used_default != 0,
        ensures
            self.resume_bytes(reply).outcome() == Some(
                Err::<ConvertedView, ConvertError>(
                    ConvertError::ConvertToAnsiError(ERROR_NO_UNICODE_TRANSLATION),
                ),
            ),
    {
    }

    /// A lossy conversion never asks whether a default character was put in,
    /// so no reply fails it with "no unicode translation" on that account.
    pub proof fn lemma_lossy_never_asks(lossy: bool, target: Target, w: Seq<u16>)
        requires
            lossy,
        ensures
            !narrow_start(lossy, target, w).call.want_used_default,
    {
    }
}

impl Converted {
    /// A string that was produced ends in a terminator and holds no other.
    pub open spec fn wf(&self) -> bool {
        match self {
            Converted::Wide(w) => w.wf(),
            Converted::MultiByte(a) => a.wf(),
            Converted::Text(_) => true,
        }
    }
}

fn start_narrowing(lossy: bool, target: Target, w: &[u16]) -> (t: Transcode<u16, u8>)
    ensures
        t@ == narrow_start(lossy, target, w@),
{
    match target {
        Target::MultiByte => if lossy {
            wide_to_mb_lossy(w)
        } else {
            wide_to_mb(w)
        },
        Target::Utf8 => if lossy {
            wide_to_utf8_lossy(w)
        } else {
            wide_to_utf8(w)
        },
    }
}

fn narrow_failure(target: Target, code: u32) -> (e: ConvertError)
    ensures
        e == narrow_error(target, code),
{
    match target {
        Target::MultiByte => ConvertError::ConvertToAnsiError(code),
        Target::Utf8 => ConvertError::ConvertToUtf8Error(code),
    }
}

impl Conversion {
    #[verifier::type_invariant]
    closed spec fn inv(self) -> bool {
        self@.wf()
    }

    /// Takes up the conversion of wide units to `target` where the
    /// transcoding `t` stands.
    pub fn narrow(lossy: bool, t: Transcode<u16, u8>, target: Target) -> (r: Self)
        ensures
            r@ == ConversionView::narrowed(lossy, t@, target),
    {
        match t.finish() {
            Err(t) => Conversion { lossy, stage: Stage::Narrowing(t, target) },
            Ok(Err(e)) => Conversion { lossy, stage: Stage::Done(Err(narrow_failure(target, e))) },
            Ok(Ok(bytes)) => {
                let mut bytes = bytes;
                let ghost given = bytes@;
                bytes.pop();
                assert(bytes@ =~= given.drop_last());
                match target {
                    Target::MultiByte => {
                        let a = AString::new_unchecked(bytes);
                        Conversion { lossy, stage: Stage::Done(Ok(Converted::MultiByte(a))) }
                    },
                    Target::Utf8 => match String::from_utf8(bytes) {
                        Ok(text) => Conversion {
                            lossy,
                            stage: Stage::Done(Ok(Converted::Text(text))),
                        },
                        Err(_) => Conversion {
                            lossy,
                            stage: Stage::Done(
                                Err(ConvertError::ConvertToUtf8Error(ERROR_NO_UNICODE_TRANSLATION)),
                            ),
                        },
                    },
                }
            },
        }
    }

    /// Takes up the conversion of bytes to wide units where the transcoding
    /// `t` stands. With a target the wide string is converted on.
    pub fn widen(lossy: bool, t: Transcode<u8, u16>, then: Option<Target>) -> (r: Self)
        ensures
            r@ == ConversionView::widened(lossy, t@, then),
    {
        match t.finish() {
            Err(t) => Conversion { lossy, stage: Stage::Widening(t, then) },
            Ok(Err(e)) => Conversion {
                lossy,
                stage: Stage::Done(Err(ConvertError::ConvertToUnicodeError(e))),
            },
            Ok(Ok(units)) => {
                let w = WString::new_unchecked(units);
                match then {
                    None => Conversion { lossy, stage: Stage::Done(Ok(Converted::Wide(w))) },
                    Some(target) => Self::narrow(
                        lossy,
                        start_narrowing(lossy, target, w.as_bytes_with_nul()),
                        target,
                    ),
                }
            },
        }
    }

    /// Returns the call that the conversion waits for, with the source to
    /// hand to it, or `None` once the conversion has its result.
    pub fn pending(&self) -> (r: Option<Call<'_>>)
        ensures
            self@.wf(),
            r is None <==> self@.pending() is None,
            r matches Some(Call::ToWide { call, bytes }) ==> {
                &&& self@.pending() == Some(call)
                &&& call.src_len == bytes@.len()
                &&& call.capacity >= 0
                &&& self@.stage matches StageView::Widening(t, _) && t.src == bytes@
            },
            r matches Some(Call::ToBytes { call, units }) ==> {
                &&& self@.pending() == Some(call)
                &&& call.src_len == units@.len()
                &&& call.capacity >= 0
                &&& self@.stage matches StageView::Narrowing(t, _) && t.src == units@
            },
    {
        proof {
            use_type_invariant(self);
        }
        match &self.stage {
            Stage::Widening(t, _) => match t.pending() {
                Some(call) => Some(Call::ToWide { call, bytes: t.source() }),
                None => None,
            },
            Stage::Narrowing(t, _) => match t.pending() {
                Some(call) => Some(Call::ToBytes { call, units: t.source() }),
                None => None,
            },
            Stage::Done(_) => None,
        }
    }

    /// Takes the reply to a call that converts to wide units and returns the
    /// conversion that follows.
    pub fn resume_wide(self, reply: NativeReply<u16>) -> (r: Self)
        ensures
            r@ == self@.resume_wide(reply@),
    {
        proof {
            use_type_invariant(&self);
        }
        let Conversion { lossy, stage } = self;
        match stage {
            Stage::Widening(t, then) => Self::widen(lossy, t.resume(reply), then),
            Stage::Narrowing(_, target) => Conversion {
                lossy,
                stage: Stage::Done(Err(narrow_failure(target, ERROR_INVALID_PARAMETER))),
            },
            Stage::Done(r) => Conversion { lossy, stage: Stage::Done(r) },
        }
    }

    /// Takes the reply to a call that converts to bytes and returns the
    /// conversion that follows.
    pub fn resume_bytes(self, reply: NativeReply<u8>) -> (r: Self)
        ensures
            r@ == self@.resume_bytes(reply@),
    {
        proof {
            use_type_invariant(&self);
        }
        let Conversion { lossy, stage } = self;
        match stage {
            Stage::Narrowing(t, target) => Self::narrow(lossy, t.resume(reply), target),
            Stage::Widening(_, _) => Conversion {
                lossy,
                stage: Stage::Done(
                    Err(ConvertError::ConvertToUnicodeError(ERROR_INVALID_PARAMETER)),
                ),
            },
            Stage::Done(r) => Conversion { lossy, stage: Stage::Done(r) },
        }
    }

    /// Returns the result, or the conversion itself while a call is
    /// outstanding.
    pub fn finish(self) -> (r: Result<ConvertResult<Converted>, Self>)
        ensures
            self@.wf(),
            r matches Ok(Ok(c)) ==> self@.outcome() == Some(
                Ok::<ConvertedView, ConvertError>(c@),
            ) && c.wf(),
            r matches Ok(Err(e)) ==> self@.outcome() == Some(Err::<ConvertedView, ConvertError>(e)),
            r matches Err(c) ==> self@.outcome() is None && c@ == self@,
    {
        proof {
            use_type_invariant(&self);
        }
        let Conversion { lossy, stage } = self;
        match stage {
            Stage::Done(r) => Ok(r),
            Stage::Widening(t, then) => Err(Conversion { lossy, stage: Stage::Widening(t, then) }),
            Stage::Narrowing(t, target) => Err(
                Conversion { lossy, stage: Stage::Narrowing(t, target) },
            ),
        }
    }
}

} // verus!
