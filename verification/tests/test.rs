use windy::conversion::{Call, Conversion, Converted};
use windy::convert::{
    NativeCall, NativeReply, CP_UTF8, ERROR_INSUFFICIENT_BUFFER, ERROR_INVALID_PARAMETER,
    ERROR_NO_UNICODE_TRANSLATION, MB_ERR_INVALID_CHARS, WC_ERR_INVALID_CHARS,
};
use windy::{AStr, AString, ConvertError, ConvertResult, WStr, WString};

// A stand-in for the platform: UTF-8 by the standard library, and a
// multi-byte code page of one byte for each of the first 256 characters.

fn fit<T: Clone + Default>(call: &NativeCall, converted: Vec<T>) -> NativeReply<T> {
    let capacity = call.capacity as usize;
    if capacity == 0 {
        return NativeReply {
            count: converted.len() as i32,
            last_error: 0,
            used_default: 0,
            buffer: Vec::new(),
        };
    }
    if converted.len() > capacity {
        return NativeReply {
            count: 0,
            last_error: ERROR_INSUFFICIENT_BUFFER,
            used_default: 0,
            buffer: vec![T::default(); capacity],
        };
    }
    let count = converted.len() as i32;
    let mut buffer = converted;
    buffer.resize(capacity, T::default());
    NativeReply { count, last_error: 0, used_default: 0, buffer }
}

fn failure<T>(code: u32) -> NativeReply<T> {
    NativeReply { count: 0, last_error: code, used_default: 0, buffer: Vec::new() }
}

fn to_wide(call: &NativeCall, src: &[u8]) -> NativeReply<u16> {
    assert_eq!(call.src_len as usize, src.len());
    if src.is_empty() {
        return failure(ERROR_INVALID_PARAMETER);
    }
    let units: Vec<u16> = if call.code_page == CP_UTF8 {
        match std::str::from_utf8(src) {
            Ok(text) => text.encode_utf16().collect(),
            Err(_) => {
                if call.flags & MB_ERR_INVALID_CHARS != 0 {
                    return failure(ERROR_NO_UNICODE_TRANSLATION);
                }
                String::from_utf8_lossy(src).encode_utf16().collect()
            }
        }
    } else {
        src.iter().map(|b| *b as u16).collect()
    };
    fit(call, units)
}

fn to_bytes(call: &NativeCall, src: &[u16]) -> NativeReply<u8> {
    assert_eq!(call.src_len as usize, src.len());
    if src.is_empty() {
        return failure(ERROR_INVALID_PARAMETER);
    }
    let mut substituted = false;
    let mut bytes: Vec<u8> = Vec::new();
    for decoded in char::decode_utf16(src.iter().copied()) {
        if call.code_page == CP_UTF8 {
            let c = match decoded {
                Ok(c) => c,
                Err(_) => {
                    if call.flags & WC_ERR_INVALID_CHARS != 0 {
                        return failure(ERROR_NO_UNICODE_TRANSLATION);
                    }
                    '\u{fffd}'
                }
            };
            let mut utf8 = [0u8; 4];
            bytes.extend_from_slice(c.encode_utf8(&mut utf8).as_bytes());
        } else {
            match decoded {
                Ok(c) if (c as u32) < 256 => bytes.push(c as u32 as u8),
                _ => {
                    substituted = true;
                    bytes.push(b'?');
                }
            }
        }
    }
    let mut reply = fit(call, bytes);
    if call.want_used_default && substituted && reply.count != 0 {
        reply.used_default = 1;
    }
    reply
}

fn run(start: Conversion) -> ConvertResult<Converted> {
    let mut conversion = start;
    let mut calls = 0;
    loop {
        conversion = match conversion.pending() {
            Some(Call::ToWide { call, bytes }) => {
                let reply = to_wide(&call, bytes);
                conversion.resume_wide(reply)
            }
            Some(Call::ToBytes { call, units }) => {
                let reply = to_bytes(&call, units);
                conversion.resume_bytes(reply)
            }
            None => break,
        };
        calls += 1;
        assert!(calls <= 6);
    }
    match conversion.finish() {
        Ok(result) => result,
        Err(_) => unreachable!(),
    }
}

fn wide(start: Conversion) -> ConvertResult<WString> {
    match run(start) {
        Ok(Converted::Wide(w)) => Ok(w),
        Ok(other) => panic!("not a wide string: {:?}", other),
        Err(e) => Err(e),
    }
}

fn multi_byte(start: Conversion) -> ConvertResult<AString> {
    match run(start) {
        Ok(Converted::MultiByte(a)) => Ok(a),
        Ok(other) => panic!("not a multi-byte string: {:?}", other),
        Err(e) => Err(e),
    }
}

fn text(start: Conversion) -> ConvertResult<String> {
    match run(start) {
        Ok(Converted::Text(s)) => Ok(s),
        Ok(other) => panic!("not a text: {:?}", other),
        Err(e) => Err(e),
    }
}

#[test]
fn test_wstring() {
    let x = WString::new_unchecked(vec![]); // empty vec
    assert_eq!(&[0x00], x.as_bytes_with_nul());
    let x = WString::new_unchecked(vec![0x00]); // empty vec
    assert_eq!(&[0x00], x.as_bytes_with_nul());
    let x = WString::new_unchecked(vec![0x74, 0x65, 0x73, 0x74]); // test
    assert_eq!(&[0x74, 0x65, 0x73, 0x74, 0x00], x.as_bytes_with_nul());
    let x = WString::new_unchecked(vec![0x74, 0x65, 0x73, 0x74, 0x00]); // test\0
    assert_eq!(&[0x74, 0x65, 0x73, 0x74, 0x00], x.as_bytes_with_nul());
    let x = WString::new_unchecked(vec![0x74, 0x65, 0x00, 0x73, 0x74]); // te\0st
    assert_eq!(&[0x74, 0x65, 0x00], x.as_bytes_with_nul());
    let x = WString::new_c_unchecked(vec![0x74, 0x00, 0x65, 0x00, 0x73, 0x00, 0x74, 0x00]); // test
    assert_eq!(&[0x74, 0x65, 0x73, 0x74, 0x00], x.as_bytes_with_nul());
    let x = WString::new_c_unchecked(vec![0x74, 0x00, 0x65, 0x00, 0x73, 0x00, 0x74, 0x00, 0x00]); // test\0 (odd)
    assert_eq!(&[0x74, 0x65, 0x73, 0x74, 0x00], x.as_bytes_with_nul());
    let x = WString::new_c_unchecked(vec![
        0x74, 0x00, 0x65, 0x00, 0x73, 0x00, 0x74, 0x00, 0x00, 0x00,
    ]); // test\0\0 (even)
    assert_eq!(&[0x74, 0x65, 0x73, 0x74, 0x00], x.as_bytes_with_nul());
    assert_eq!(x.as_bytes_with_nul(), x.as_c_str().to_bytes_with_nul());
    assert_eq!(x, wide(WString::from_str("test")).unwrap());
    assert_ne!(Ok(x), wide(WString::from_str("Test")));
    let x = &mut [0x0074, 0x0065, 0x0073, 0x0074, 0x0000];
    let s = WStr::from_raw(x);
    assert_eq!("test", text(s.to_string_lossy()).unwrap());
    let s = WStr::from_raw_s(x, 3);
    assert_eq!("tes", text(s.to_string_lossy()).unwrap());
    let s = WStr::from_raw_s(x, 4);
    assert_eq!("test", text(s.to_string_lossy()).unwrap());
    let s = WStr::from_raw_s(x, 5);
    assert_eq!("test", text(s.to_string_lossy()).unwrap());
    let s = WStr::from_raw_s(x, 6);
    assert_eq!("test", text(s.to_string_lossy()).unwrap());
    let s = WString::clone_from_raw(x);
    assert_eq!("test", text(s.to_string_lossy()).unwrap());
    let s = WString::clone_from_raw_s(x, 3);
    assert_eq!("tes", text(s.to_string_lossy()).unwrap());
    let s = WString::clone_from_raw_s(x, 4);
    assert_eq!("test", text(s.to_string_lossy()).unwrap());
    let s = WString::clone_from_raw_s(x, 5);
    assert_eq!("test", text(s.to_string_lossy()).unwrap());
    let s = WString::clone_from_raw_s(x, 6);
    assert_eq!("test", text(s.to_string_lossy()).unwrap());
}

#[test]
fn test_astring() {
    let x = AString::new_unchecked(vec![]); // empty vec
    assert_eq!(&[0x00], x.as_bytes_with_nul());
    let x = AString::new_unchecked(vec![0x74, 0x65, 0x73, 0x74]); // test
    assert_eq!(&[0x74, 0x65, 0x73, 0x74, 0x00], x.as_bytes_with_nul());
    let x = AString::new_unchecked(vec![0x74, 0x65, 0x73, 0x74, 0x00]); // test\0
    assert_eq!(&[0x74, 0x65, 0x73, 0x74, 0x00], x.as_bytes_with_nul());
    let x = AString::new_unchecked(vec![0x74, 0x65, 0x00, 0x73, 0x74, 0x00]); // te\0st\0
    assert_eq!(&[0x74, 0x65, 0x00], x.as_bytes_with_nul());
    assert_eq!(x.as_bytes_with_nul(), x.as_c_str().to_bytes_with_nul());
    assert_eq!(x, multi_byte(AString::from_str("te")).unwrap());
    assert_ne!(Ok(x), multi_byte(AString::from_str("Te")));
    let x = &mut [0x74, 0x65, 0x73, 0x74, 0x00];
    let s = AStr::from_raw(x);
    assert_eq!("test", text(s.to_string_lossy()).unwrap());
    let s = AStr::from_raw_s(x, 3);
    assert_eq!("tes", text(s.to_string_lossy()).unwrap());
    let s = AStr::from_raw_s(x, 4);
    assert_eq!("test", text(s.to_string_lossy()).unwrap());
    let s = AStr::from_raw_s(x, 5);
    assert_eq!("test", text(s.to_string_lossy()).unwrap());
    let s = AStr::from_raw_s(x, 6);
    assert_eq!("test", text(s.to_string_lossy()).unwrap());
    let s = AString::clone_from_raw(x);
    assert_eq!("test", text(s.to_string_lossy()).unwrap());
    let s = AString::clone_from_raw_s(x, 3);
    assert_eq!("tes", text(s.to_string_lossy()).unwrap());
    let s = AString::clone_from_raw_s(x, 4);
    assert_eq!("test", text(s.to_string_lossy()).unwrap());
    let s = AString::clone_from_raw_s(x, 5);
    assert_eq!("test", text(s.to_string_lossy()).unwrap());
    let s = AString::clone_from_raw_s(x, 6);
    assert_eq!("test", text(s.to_string_lossy()).unwrap());
}

#[test]
fn test_string_conversion() {
    // UTF-8 -> ANSI
    let lossy = multi_byte(AString::from_str_lossy("スペシャル")).unwrap();
    let _ = text(lossy.to_string_lossy()).unwrap();
    let sa = multi_byte(AString::from_str("test")).unwrap();
    assert_eq!("test", text(sa.try_to_string()).unwrap()); // ANSI -> UTF-8
    assert_eq!("test", text(sa.to_string_lossy()).unwrap()); // ANSI -> UTF-8 lossy
    // UTF-8 -> Unicode
    let sw = wide(WString::from_str("test")).unwrap();
    assert_eq!("test", text(sw.try_to_string()).unwrap()); // Unicode -> UTF-8
    assert_eq!("test", text(sw.to_string_lossy()).unwrap()); // Unicode -> UTF-8 lossy
    // Unicode -> ANSI
    let sa = multi_byte(sw.to_astring()).unwrap();
    assert_eq!("test", text(sa.try_to_string()).unwrap());
    assert_eq!("test", text(sa.to_string_lossy()).unwrap());
    // ANSI -> Unicode
    let sw = wide(sa.to_wstring()).unwrap();
    assert_eq!("test", text(sw.try_to_string()).unwrap()); // ANSI -> UTF-8
    assert_eq!("test", text(sw.to_string_lossy()).unwrap()); // ANSI -> UTF-8 lossy
    // ANSI -> Unicode lossy
    let sw = wide(sa.to_wstring_lossy()).unwrap();
    assert_eq!("test", text(sw.try_to_string()).unwrap()); // ANSI -> UTF-8
    assert_eq!("test", text(sw.to_string_lossy()).unwrap()); // ANSI -> UTF-8 lossy
}

#[test]
fn test_string_conversion_invalid() {
    // UTF-8 -> ANSI (Invalid)
    assert_eq!(
        Err(ConvertError::ConvertToAnsiError(ERROR_NO_UNICODE_TRANSLATION)),
        multi_byte(AString::from_str("スペシャルtest🍣"))
    );
    assert_eq!(1113, ERROR_NO_UNICODE_TRANSLATION);
    // UTF-8 -> Unicode
    let sw = wide(WString::from_str("スペシャルtest🍣")).unwrap();
    assert_eq!("スペシャルtest🍣", text(sw.try_to_string()).unwrap()); // Unicode -> UTF-8
    assert_eq!("スペシャルtest🍣", text(sw.to_string_lossy()).unwrap()); // Unicode -> UTF-8 lossy
    // Unicode -> ANSI (Invalid)
    assert_eq!(
        Err(ConvertError::ConvertToAnsiError(ERROR_NO_UNICODE_TRANSLATION)),
        multi_byte(sw.to_astring())
    );
    let lossy = multi_byte(sw.to_astring_lossy()).unwrap();
    let _ = text(lossy.to_string_lossy()).unwrap();
}

#[test]
fn test_empty_string() {
    let w = || wide(WString::from_str("")).unwrap();
    let wl = || wide(WString::from_str_lossy("")).unwrap();
    let a = || multi_byte(AString::from_str("")).unwrap();
    let al = || multi_byte(AString::from_str_lossy("")).unwrap();
    assert_eq!("", &text(w().try_to_string()).unwrap());
    assert_eq!("", &text(w().to_string_lossy()).unwrap());
    assert_eq!("", &text(wl().try_to_string()).unwrap());
    assert_eq!("", &text(wl().to_string_lossy()).unwrap());
    assert_eq!("", &text(a().try_to_string()).unwrap());
    assert_eq!("", &text(a().to_string_lossy()).unwrap());
    assert_eq!("", &text(al().try_to_string()).unwrap());
    assert_eq!("", &text(al().to_string_lossy()).unwrap());

    assert_eq!("", &text(multi_byte(wl().to_astring()).unwrap().to_string_lossy()).unwrap());
    assert_eq!("", &text(multi_byte(wl().to_astring_lossy()).unwrap().to_string_lossy()).unwrap());
    assert_eq!("", &text(wide(al().to_wstring()).unwrap().try_to_string()).unwrap());
    assert_eq!("", &text(wide(al().to_wstring_lossy()).unwrap().try_to_string()).unwrap());
}

#[test]
fn test_astr() {}

#[test]
fn empty_strings_keep_their_terminator() {
    let w = wide(WString::from_str("")).unwrap();
    assert_eq!(&[0u16], w.as_bytes_with_nul());
    assert_eq!(0, w.len());
    assert!(w.is_empty());
    let a = multi_byte(AString::from_str("")).unwrap();
    assert_eq!(&[0u8], a.as_bytes_with_nul());
    assert_eq!(0, a.len());
    assert!(a.is_empty());
    let a = multi_byte(w.to_astring_lossy()).unwrap();
    assert_eq!(&[0u8], a.as_bytes_with_nul());
    let w = wide(a.to_wstring_lossy()).unwrap();
    assert_eq!(&[0u16], w.as_bytes_with_nul());
}

#[test]
fn representable_text_comes_back() {
    for sample in ["test", "Hello World!", "caf\u{e9} \u{fc}ber", "x"] {
        let w = wide(WString::from_str(sample)).unwrap();
        let a = multi_byte(w.to_astring()).unwrap();
        let w2 = wide(a.to_wstring()).unwrap();
        assert_eq!(w, w2);
        assert_eq!(sample, text(w2.try_to_string()).unwrap());
        assert_eq!(sample, text(a.try_to_string()).unwrap());
        let a = multi_byte(AString::from_str_lossy(sample)).unwrap();
        let w = wide(a.to_wstring_lossy()).unwrap();
        assert_eq!(sample, text(w.to_string_lossy()).unwrap());
        assert_eq!(sample, text(a.to_string_lossy()).unwrap());
    }
}

#[test]
fn shortened_view_converts_what_it_shows() {
    let x: &[u16] = &[0x74, 0x65, 0x73, 0x74, 0];
    let s = WStr::from_raw_s(x, 3);
    assert_eq!(b"tes\0", multi_byte(s.to_astring()).unwrap().as_bytes_with_nul());
    assert_eq!(b"tes\0", multi_byte(s.to_astring_lossy()).unwrap().as_bytes_with_nul());
    let s = AStr::from_raw_s(b"test\0", 2);
    assert_eq!(&[0x74, 0x65, 0], wide(s.to_wstring()).unwrap().as_bytes_with_nul());
}

#[test]
fn lossy_conversion_substitutes() {
    let a = multi_byte(AString::from_str_lossy("a\u{30b9}b")).unwrap();
    assert_eq!(b"a?b\0", a.as_bytes_with_nul());
    assert_eq!(b"a?b", a.as_bytes());
}

#[test]
fn unpaired_surrogate_fails_strictly_only() {
    let w = WString::new_unchecked(vec![0x61, 0xd800, 0x62]);
    assert_eq!(
        Err(ConvertError::ConvertToUtf8Error(ERROR_NO_UNICODE_TRANSLATION)),
        text(w.try_to_string())
    );
    assert_eq!("a\u{fffd}b", text(w.to_string_lossy()).unwrap());
}
