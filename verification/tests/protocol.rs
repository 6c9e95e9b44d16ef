use windy::conversion::{Call, Conversion, Converted};
use windy::convert::{
    mb_to_wide, mb_to_wide_lossy, multi_byte_to_wide_char, multi_byte_to_wide_char2,
    multi_byte_to_wide_char_wrap, utf8_to_wide, utf8_to_wide_lossy, wide_char_to_multi_byte,
    wide_char_to_multi_byte2, wide_char_to_multi_byte_wrap, wide_to_mb, wide_to_mb_lossy,
    wide_to_utf8, wide_to_utf8_lossy, NativeCall, NativeReply, CP_ACP, CP_UTF8,
    ERROR_INSUFFICIENT_BUFFER, ERROR_INVALID_PARAMETER, ERROR_NO_UNICODE_TRANSLATION,
    MB_ERR_INVALID_CHARS, WC_ERR_INVALID_CHARS, WC_NO_BEST_FIT_CHARS,
};
use windy::{quoted, AString, ConvertError, ToAString, ToWString, WString};

fn wrote<T>(buffer: Vec<T>, count: i32) -> NativeReply<T> {
    NativeReply { count, last_error: 0, used_default: 0, buffer }
}

fn failed<T>(code: u32) -> NativeReply<T> {
    NativeReply { count: 0, last_error: code, used_default: 0, buffer: Vec::new() }
}

fn call(code_page: u32, flags: u32, src_len: i32, capacity: i32, want: bool) -> NativeCall {
    NativeCall { code_page, flags, src_len, capacity, want_used_default: want }
}

fn wide_call(conversion: &Conversion) -> (NativeCall, Vec<u8>) {
    match conversion.pending() {
        Some(Call::ToWide { call, bytes }) => (call, bytes.to_vec()),
        other => panic!("no call to wide: {:?}", other),
    }
}

fn bytes_call(conversion: &Conversion) -> (NativeCall, Vec<u16>) {
    match conversion.pending() {
        Some(Call::ToBytes { call, units }) => (call, units.to_vec()),
        other => panic!("no call to bytes: {:?}", other),
    }
}

#[test]
fn constants_have_the_platform_values() {
    assert_eq!(0, CP_ACP);
    assert_eq!(65001, CP_UTF8);
    assert_eq!(0x8, MB_ERR_INVALID_CHARS);
    assert_eq!(0x80, WC_ERR_INVALID_CHARS);
    assert_eq!(0x400, WC_NO_BEST_FIT_CHARS);
    assert_eq!(87, ERROR_INVALID_PARAMETER);
    assert_eq!(122, ERROR_INSUFFICIENT_BUFFER);
    assert_eq!(1113, ERROR_NO_UNICODE_TRANSLATION);
}

#[test]
fn lengths_are_marshalled_or_refused() {
    assert_eq!(Ok(call(CP_ACP, 8, 3, 3, false)), multi_byte_to_wide_char(CP_ACP, 8, 3, 3));
    assert_eq!(
        Ok(call(CP_UTF8, 0x400, 0x7fff_ffff, 0, true)),
        wide_char_to_multi_byte(CP_UTF8, 0x400, 0x7fff_ffff, 0, true)
    );
    assert_eq!(Err(ERROR_INVALID_PARAMETER), multi_byte_to_wide_char(CP_ACP, 0, 0x8000_0000, 1));
    assert_eq!(Err(ERROR_INVALID_PARAMETER), multi_byte_to_wide_char(CP_ACP, 0, 1, 0x8000_0000));
    assert_eq!(
        Err(ERROR_INVALID_PARAMETER),
        wide_char_to_multi_byte(CP_ACP, 0, 0x8000_0000, 1, false)
    );
}

#[test]
fn replies_are_read() {
    assert_eq!(Ok(5), wrote::<u8>(vec![], 5).measured());
    assert_eq!(Err(7), failed::<u8>(7).measured());
    assert_eq!(Err(ERROR_INVALID_PARAMETER), wrote::<u8>(vec![], -1).measured());
    assert_eq!(Ok(2), wrote(vec![1u8, 2, 3], 2).written());
    assert_eq!(Ok(3), wrote(vec![1u8, 2, 3], 3).written());
    assert_eq!(Err(ERROR_INVALID_PARAMETER), wrote(vec![1u8, 2, 3], 4).written());
    assert_eq!(Err(ERROR_INVALID_PARAMETER), wrote(vec![1u8, 2, 3], -2).written());
    assert_eq!(Err(9), failed::<u16>(9).written());
}

#[test]
fn first_call_has_the_estimated_size() {
    let t = multi_byte_to_wide_char_wrap(CP_ACP, MB_ERR_INVALID_CHARS, b"abc");
    assert_eq!(Some(call(CP_ACP, MB_ERR_INVALID_CHARS, 3, 3, false)), t.pending());
    assert_eq!(b"abc", t.source());
    let t = wide_char_to_multi_byte_wrap(CP_UTF8, WC_NO_BEST_FIT_CHARS, &[0x61, 0x62, 0], true);
    assert_eq!(Some(call(CP_UTF8, WC_NO_BEST_FIT_CHARS, 3, 12, true)), t.pending());
    assert_eq!(&[0x61, 0x62, 0], t.source());
}

#[test]
fn empty_source_is_one_terminator() {
    let t = multi_byte_to_wide_char_wrap(CP_UTF8, 0, b"");
    assert_eq!(Some(call(CP_UTF8, 0, 1, 1, false)), t.pending());
    assert_eq!(&[0u8], t.source());
    let t = wide_char_to_multi_byte_wrap(CP_ACP, 0, &[], false);
    assert_eq!(Some(call(CP_ACP, 0, 1, 4, false)), t.pending());
    assert_eq!(&[0u16], t.source());
}

#[test]
fn first_call_can_end_it() {
    let t = multi_byte_to_wide_char_wrap(CP_ACP, 0, b"abc");
    let t = t.resume(wrote(vec![0x61, 0x62, 0x63], 3));
    assert_eq!(None, t.pending());
    assert_eq!(Some(Ok(vec![0x61, 0x62, 0x63])), t.finish().ok());

    let t = wide_char_to_multi_byte_wrap(CP_ACP, 0, &[0x61, 0], false);
    let t = t.resume(wrote(vec![0x61, 0, 0xcc, 0xcc, 0xcc, 0xcc, 0xcc, 0xcc], 2));
    assert_eq!(Some(Ok(vec![0x61, 0])), t.finish().ok());
}

#[test]
fn small_buffer_is_measured_and_filled() {
    let t = wide_char_to_multi_byte_wrap(CP_UTF8, WC_NO_BEST_FIT_CHARS, &[0x3042], true);
    assert_eq!(Some(call(CP_UTF8, WC_NO_BEST_FIT_CHARS, 1, 4, true)), t.pending());
    let t = t.resume(failed(ERROR_INSUFFICIENT_BUFFER));
    assert_eq!(Some(call(CP_UTF8, WC_NO_BEST_FIT_CHARS, 1, 0, false)), t.pending());
    let t = t.resume(wrote(vec![], 5));
    assert_eq!(Some(call(CP_UTF8, WC_NO_BEST_FIT_CHARS, 1, 5, true)), t.pending());
    assert_eq!(&[0x3042], t.source());
    let t = t.resume(wrote(vec![1, 2, 3, 4, 5], 5));
    assert_eq!(None, t.pending());
    assert_eq!(Some(Ok(vec![1, 2, 3, 4, 5])), t.finish().ok());
}

#[test]
fn filling_must_write_what_was_measured() {
    let t = multi_byte_to_wide_char_wrap(CP_ACP, 0, b"abc");
    let t = t.resume(failed(ERROR_INSUFFICIENT_BUFFER));
    let t = t.resume(wrote(vec![], 3));
    let t = t.resume(wrote(vec![0x61, 0x62, 0x63], 2));
    assert_eq!(Some(Err(ERROR_INVALID_PARAMETER)), t.finish().ok());
}

#[test]
fn failures_end_it() {
    let t = multi_byte_to_wide_char_wrap(CP_ACP, MB_ERR_INVALID_CHARS, b"abc");
    let t = t.resume(failed(ERROR_NO_UNICODE_TRANSLATION));
    assert_eq!(None, t.pending());
    assert_eq!(Some(Err(ERROR_NO_UNICODE_TRANSLATION)), t.finish().ok());

    let t = multi_byte_to_wide_char_wrap(CP_ACP, 0, b"abc");
    let t = t.resume(failed(ERROR_INSUFFICIENT_BUFFER));
    let t = t.resume(failed(5));
    assert_eq!(Some(Err(5)), t.finish().ok());

    let t = multi_byte_to_wide_char_wrap(CP_ACP, 0, b"abc");
    let t = t.resume(failed(ERROR_INSUFFICIENT_BUFFER));
    let t = t.resume(wrote(vec![], 3));
    let t = t.resume(failed(6));
    assert_eq!(Some(Err(6)), t.finish().ok());

    let t = multi_byte_to_wide_char_wrap(CP_ACP, 0, b"abc");
    let t = t.resume(wrote(vec![0x61], 2));
    assert_eq!(Some(Err(ERROR_INVALID_PARAMETER)), t.finish().ok());

    let t = multi_byte_to_wide_char_wrap(CP_ACP, 0, b"abc");
    let t = t.resume(wrote(vec![0x61], -1));
    assert_eq!(Some(Err(ERROR_INVALID_PARAMETER)), t.finish().ok());
}

#[test]
fn default_character_fails_who_asked() {
    let substituted =
        || NativeReply { count: 2, last_error: 0, used_default: 1, buffer: vec![b'?', 0] };
    let t = wide_char_to_multi_byte_wrap(CP_ACP, WC_NO_BEST_FIT_CHARS, &[0x3042, 0], true);
    let t = t.resume(substituted());
    assert_eq!(Some(Err(ERROR_NO_UNICODE_TRANSLATION)), t.finish().ok());

    let t = wide_char_to_multi_byte_wrap(CP_ACP, WC_NO_BEST_FIT_CHARS, &[0x3042, 0], false);
    let t = t.resume(substituted());
    assert_eq!(Some(Ok(vec![b'?', 0])), t.finish().ok());

    let t = wide_char_to_multi_byte_wrap(CP_ACP, WC_NO_BEST_FIT_CHARS, &[0x3042, 0], true);
    let t = t.resume(failed(ERROR_INSUFFICIENT_BUFFER));
    let t = t.resume(wrote(vec![], 2));
    let t = t.resume(substituted());
    assert_eq!(Some(Err(ERROR_NO_UNICODE_TRANSLATION)), t.finish().ok());
}

#[test]
fn a_result_is_kept() {
    let t = multi_byte_to_wide_char_wrap(CP_ACP, 0, b"a");
    let t = t.resume(wrote(vec![0x61], 1));
    let t = t.resume(failed(5));
    let t = t.resume(wrote(vec![0x62], 1));
    assert_eq!(Some(Ok(vec![0x61])), t.finish().ok());
}

#[test]
fn unfinished_transcoding_is_handed_back() {
    let t = multi_byte_to_wide_char_wrap(CP_ACP, 0, b"a");
    let t = match t.finish() {
        Err(t) => t,
        Ok(r) => panic!("finished: {:?}", r),
    };
    assert_eq!(Some(call(CP_ACP, 0, 1, 1, false)), t.pending());
}

#[test]
fn measuring_can_come_first() {
    let t = multi_byte_to_wide_char2(CP_ACP, 0, b"ab");
    assert_eq!(Some(call(CP_ACP, 0, 2, 0, false)), t.pending());
    let t = t.resume(wrote(vec![], 2));
    assert_eq!(Some(call(CP_ACP, 0, 2, 2, false)), t.pending());
    let t = t.resume(wrote(vec![0x61, 0x62], 2));
    assert_eq!(Some(Ok(vec![0x61, 0x62])), t.finish().ok());

    let t = wide_char_to_multi_byte2(CP_ACP, WC_NO_BEST_FIT_CHARS, &[0x61], true);
    assert_eq!(Some(call(CP_ACP, WC_NO_BEST_FIT_CHARS, 1, 0, false)), t.pending());
    let t = t.resume(wrote(vec![], 1));
    assert_eq!(Some(call(CP_ACP, WC_NO_BEST_FIT_CHARS, 1, 1, true)), t.pending());
}

#[test]
fn named_conversions_have_their_flags() {
    assert_eq!(Some(call(CP_UTF8, 0, 1, 1, false)), utf8_to_wide_lossy("a").pending());
    assert_eq!(Some(call(CP_UTF8, 0x8, 1, 1, false)), utf8_to_wide("a").pending());
    assert_eq!(Some(call(CP_UTF8, 0x480, 1, 4, false)), wide_to_utf8(&[0x61]).pending());
    assert_eq!(Some(call(CP_UTF8, 0x400, 1, 4, false)), wide_to_utf8_lossy(&[0x61]).pending());
    assert_eq!(Some(call(CP_ACP, 0x8, 1, 1, false)), mb_to_wide(b"a").pending());
    assert_eq!(Some(call(CP_ACP, 0, 1, 1, false)), mb_to_wide_lossy(b"a").pending());
    assert_eq!(Some(call(CP_ACP, 0x400, 1, 4, true)), wide_to_mb(&[0x61]).pending());
    assert_eq!(Some(call(CP_ACP, 0x400, 1, 4, false)), wide_to_mb_lossy(&[0x61]).pending());
    assert_eq!("\u{3042}".as_bytes(), utf8_to_wide("\u{3042}").source());
}

#[test]
fn text_goes_to_multi_byte_by_way_of_wide() {
    let c = AString::from_str("hi");
    let (first, bytes) = wide_call(&c);
    assert_eq!(call(CP_UTF8, MB_ERR_INVALID_CHARS, 2, 2, false), first);
    assert_eq!(b"hi".to_vec(), bytes);
    let c = c.resume_wide(wrote(vec![0x68, 0x69], 2));
    let (second, units) = bytes_call(&c);
    assert_eq!(call(CP_ACP, WC_NO_BEST_FIT_CHARS, 3, 12, true), second);
    assert_eq!(vec![0x68, 0x69, 0], units);
    let c = c.resume_bytes(wrote(vec![0x68, 0x69, 0, 9, 9, 9, 9, 9, 9, 9, 9, 9], 3));
    assert!(c.pending().is_none());
    match c.finish() {
        Ok(Ok(Converted::MultiByte(a))) => assert_eq!(b"hi\0", a.as_bytes_with_nul()),
        other => panic!("{:?}", other),
    }
}

#[test]
fn lossy_conversion_asks_for_no_flag() {
    let c = AString::from_str_lossy("hi");
    let (first, _) = wide_call(&c);
    assert_eq!(call(CP_UTF8, 0, 2, 2, false), first);
    let c = c.resume_wide(wrote(vec![0x68, 0x69], 2));
    let (second, _) = bytes_call(&c);
    assert_eq!(call(CP_ACP, WC_NO_BEST_FIT_CHARS, 3, 12, false), second);
    let c = c.resume_bytes(NativeReply {
        count: 3,
        last_error: 0,
        used_default: 1,
        buffer: vec![b'?', b'?', 0],
    });
    match c.finish() {
        Ok(Ok(Converted::MultiByte(a))) => assert_eq!(b"??\0", a.as_bytes_with_nul()),
        other => panic!("{:?}", other),
    }
}

#[test]
fn each_stage_has_its_error() {
    let c = WString::from_str("hi").resume_wide(failed(ERROR_NO_UNICODE_TRANSLATION));
    assert_eq!(
        Some(Err(ConvertError::ConvertToUnicodeError(ERROR_NO_UNICODE_TRANSLATION))),
        c.finish().ok().map(|r| r.map(|_| ()))
    );
    let w = WString::new_unchecked(vec![0x68]);
    let c = w.to_astring().resume_bytes(failed(31));
    assert_eq!(
        Some(Err(ConvertError::ConvertToAnsiError(31))),
        c.finish().ok().map(|r| r.map(|_| ()))
    );
    let c = w.try_to_string().resume_bytes(failed(ERROR_NO_UNICODE_TRANSLATION));
    assert_eq!(
        Some(Err(ConvertError::ConvertToUtf8Error(ERROR_NO_UNICODE_TRANSLATION))),
        c.finish().ok().map(|r| r.map(|_| ()))
    );
    let a = AString::new_unchecked(vec![0x68]);
    let c = a.try_to_string().resume_wide(failed(3));
    assert_eq!(
        Some(Err(ConvertError::ConvertToUnicodeError(3))),
        c.finish().ok().map(|r| r.map(|_| ()))
    );
}

#[test]
fn reply_for_the_other_direction_ends_it() {
    let c = WString::from_str("hi").resume_bytes(wrote(vec![1], 1));
    assert_eq!(
        Some(Err(ConvertError::ConvertToUnicodeError(ERROR_INVALID_PARAMETER))),
        c.finish().ok().map(|r| r.map(|_| ()))
    );
    let w = WString::new_unchecked(vec![0x68]);
    let c = w.to_astring_lossy().resume_wide(wrote(vec![1], 1));
    assert_eq!(
        Some(Err(ConvertError::ConvertToAnsiError(ERROR_INVALID_PARAMETER))),
        c.finish().ok().map(|r| r.map(|_| ()))
    );
    let c = w.to_string_lossy().resume_wide(wrote(vec![1], 1));
    assert_eq!(
        Some(Err(ConvertError::ConvertToUtf8Error(ERROR_INVALID_PARAMETER))),
        c.finish().ok().map(|r| r.map(|_| ()))
    );
}

#[test]
fn text_must_be_utf8() {
    let w = WString::new_unchecked(vec![0x68]);
    let c = w.to_string_lossy().resume_bytes(wrote(vec![0x68, 0xff, 0], 3));
    assert_eq!(
        Some(Err(ConvertError::ConvertToUtf8Error(ERROR_NO_UNICODE_TRANSLATION))),
        c.finish().ok().map(|r| r.map(|_| ()))
    );
    let c = w.try_to_string().resume_bytes(wrote(vec![0xe3, 0x81, 0x82, 0, 7, 7, 7, 7], 4));
    match c.finish() {
        Ok(Ok(Converted::Text(s))) => assert_eq!("\u{3042}", s),
        other => panic!("{:?}", other),
    }
}

#[test]
fn last_byte_of_text_is_taken_off() {
    let w = WString::new_unchecked(vec![0x68]);
    let c = w.try_to_string().resume_bytes(wrote(vec![0x68, 0x69], 2));
    match c.finish() {
        Ok(Ok(Converted::Text(s))) => assert_eq!("h", s),
        other => panic!("{:?}", other),
    }
}

#[test]
fn converted_strings_are_cut_at_the_terminator() {
    let c = WString::from_str("abc").resume_wide(wrote(vec![0x61, 0, 0x63], 3));
    match c.finish() {
        Ok(Ok(Converted::Wide(w))) => assert_eq!(&[0x61, 0], w.as_bytes_with_nul()),
        other => panic!("{:?}", other),
    }
    let w = WString::new_unchecked(vec![0x61]);
    let c = w.to_astring().resume_bytes(wrote(vec![0x61, 0, 0x62, 0], 4));
    match c.finish() {
        Ok(Ok(Converted::MultiByte(a))) => assert_eq!(b"a\0", a.as_bytes_with_nul()),
        other => panic!("{:?}", other),
    }
    let c = w.to_astring().resume_bytes(wrote(vec![0x61, 0x62], 2));
    match c.finish() {
        Ok(Ok(Converted::MultiByte(a))) => assert_eq!(b"a\0", a.as_bytes_with_nul()),
        other => panic!("{:?}", other),
    }
}

#[test]
fn views_convert_what_they_cover() {
    let w = WString::new_unchecked(vec![0x61, 0x62]);
    let (first, units) = bytes_call(&w.as_c_str().to_astring());
    assert_eq!(call(CP_ACP, WC_NO_BEST_FIT_CHARS, 3, 12, true), first);
    assert_eq!(vec![0x61, 0x62, 0], units);
    let (first, _) = bytes_call(&w.as_c_str().try_to_string());
    assert_eq!(call(CP_UTF8, 0x480, 3, 12, false), first);
    let (first, _) = bytes_call(&w.as_c_str().to_string_lossy());
    assert_eq!(call(CP_UTF8, 0x400, 3, 12, false), first);
    let a = AString::new_unchecked(vec![0x61, 0x62]);
    let (first, bytes) = wide_call(&a.as_c_str().to_wstring());
    assert_eq!(call(CP_ACP, MB_ERR_INVALID_CHARS, 2, 2, false), first);
    assert_eq!(b"ab".to_vec(), bytes);
    let (first, _) = wide_call(&a.as_c_str().to_wstring_lossy());
    assert_eq!(call(CP_ACP, 0, 2, 2, false), first);
    let (first, _) = wide_call(&a.as_c_str().to_string_lossy());
    assert_eq!(call(CP_ACP, 0, 2, 2, false), first);
}

#[test]
fn text_types_start_conversions() {
    let (first, bytes) = wide_call(&"hi".to_wstring());
    assert_eq!(call(CP_UTF8, MB_ERR_INVALID_CHARS, 2, 2, false), first);
    assert_eq!(b"hi".to_vec(), bytes);
    let (first, _) = wide_call(&String::from("hi").to_wstring_lossy());
    assert_eq!(call(CP_UTF8, 0, 2, 2, false), first);
    let c = "hi".to_astring().resume_wide(wrote(vec![0x68, 0x69], 2));
    let (second, _) = bytes_call(&c);
    assert_eq!(call(CP_ACP, WC_NO_BEST_FIT_CHARS, 3, 12, true), second);
    let c = String::from("hi").to_astring_lossy().resume_wide(wrote(vec![0x68, 0x69], 2));
    let (second, _) = bytes_call(&c);
    assert_eq!(call(CP_ACP, WC_NO_BEST_FIT_CHARS, 3, 12, false), second);
}

#[test]
fn errors_give_their_code_and_name() {
    let e = ConvertError::ConvertToUtf8Error(1);
    assert_eq!(1, e.as_error_code());
    assert_eq!("ConvertToUtf8Error", e.variant_name());
    let e = ConvertError::ConvertToAnsiError(ERROR_NO_UNICODE_TRANSLATION);
    assert_eq!(1113, e.as_error_code());
    assert_eq!("ConvertToAnsiError", e.variant_name());
    let e = ConvertError::ConvertToUnicodeError(0xffff_fffe);
    assert_eq!(0xffff_fffe, e.as_error_code());
    assert_eq!("ConvertToUnicodeError", e.variant_name());
    assert_eq!(0xffff_fffeu32, u32::from(e));
    assert_eq!(-2i32, i32::from(e));
    assert!(ConvertError::ConvertToUtf8Error(9) < ConvertError::ConvertToAnsiError(1));
    assert!(ConvertError::ConvertToAnsiError(1) < ConvertError::ConvertToAnsiError(2));
    assert_ne!(ConvertError::ConvertToAnsiError(1), ConvertError::ConvertToUnicodeError(1));
}

#[test]
fn strings_are_rendered_in_quotes() {
    assert_eq!("\"test\"", quoted("test"));
    assert_eq!("\"\"", quoted(""));
}
