use encoding_vfs_core::encoding::{
    from_encoding, from_utf8, gbk, get_encoding, is_likely_gbk, is_likely_utf8, to_encoding,
    to_utf8, utf_16le, utf_8,
};

const NIHAO_GBK: &[u8] = b"\xC4\xE3\xBA\xC3\xCA\xC0\xBD\xE7";

#[test]
fn get_encoding_table_and_labels() {
    assert_eq!(get_encoding("utf8"), Some(utf_8()));
    assert_eq!(get_encoding("UTF-8"), Some(utf_8()));
    assert_eq!(get_encoding("gbk"), Some(gbk()));
    assert_eq!(get_encoding("cp936"), Some(gbk()));
    assert_eq!(get_encoding("GB2312"), Some(gbk()));
    assert_eq!(get_encoding("gb18030").unwrap().name(), "GBK");
    assert_eq!(get_encoding("big5").unwrap().name(), "Big5");
    assert_eq!(get_encoding("Shift_JIS").unwrap().name(), "Shift_JIS");
    assert_eq!(get_encoding("cp1252").unwrap().name(), "windows-1252");
    assert_eq!(get_encoding("x-mac-cyrillic").unwrap().name(), "x-mac-cyrillic");
    // Not in the table: falls through to the label lookup.
    assert_eq!(get_encoding("latin2").unwrap().name(), "ISO-8859-2");
    assert_eq!(get_encoding("windows-1251").unwrap().name(), "windows-1251");
    assert_eq!(get_encoding("no-such-encoding"), None);
}

#[test]
fn gbk_to_utf8_and_back() {
    let (utf8, had_errors) = to_encoding(NIHAO_GBK, gbk(), utf_8());
    assert!(!had_errors);
    assert_eq!(String::from_utf8(utf8.clone()).unwrap(), "你好世界");
    let (back, errs) = from_encoding(&utf8, utf_8(), gbk());
    assert!(!errs);
    assert_eq!(back, NIHAO_GBK);
}

#[test]
fn to_utf8_reports_errors() {
    let (bytes, errs) = to_utf8(NIHAO_GBK, gbk());
    assert!(!errs);
    assert_eq!(bytes, "你好世界".as_bytes());
    let (bytes, errs) = to_utf8(&[0xFF, 0x41], utf_8());
    assert!(errs);
    assert_eq!(bytes, "\u{FFFD}A".as_bytes());
}

#[test]
fn from_utf8_invalid_input_is_empty() {
    let (bytes, errs) = from_utf8(&[0xFF, 0xFE, 0x41], gbk());
    assert!(bytes.is_empty());
    assert!(!errs);
    let (bytes, errs) = from_utf8("你".as_bytes(), gbk());
    assert_eq!(bytes, b"\xC4\xE3");
    assert!(!errs);
}

#[test]
fn from_encoding_lossy_utf8_source() {
    // A split multi-byte sequence is replaced, the rest survives.
    let data = &"你好".as_bytes()[..4];
    let (bytes, _) = from_encoding(data, utf_8(), utf_8());
    assert_eq!(String::from_utf8(bytes).unwrap(), "你\u{FFFD}");
}

#[test]
fn unmappable_characters_are_reported() {
    let (bytes, errs) = to_encoding("€😀".as_bytes(), utf_8(), gbk());
    assert!(errs);
    assert!(!bytes.is_empty());
}

#[test]
fn ascii_round_trip_unchanged() {
    let data = b"plain ascii text 123";
    assert_eq!(to_encoding(data, gbk(), utf_8()), (data.to_vec(), false));
    assert_eq!(from_encoding(data, utf_8(), gbk()), (data.to_vec(), false));
}

#[test]
fn utf16_round_trip() {
    let data = [0xFF, 0xFE, 0x41, 0x00];
    let (utf8, errs) = to_encoding(&data, utf_16le(), utf_8());
    assert!(!errs);
    assert_eq!(utf8, b"A");
}

#[test]
fn likely_checks() {
    assert!(is_likely_utf8(b"abc"));
    assert!(!is_likely_utf8(b""));
    assert!(!is_likely_utf8(&[0xC4, 0xE3]));
    assert!(is_likely_gbk(NIHAO_GBK));
    assert!(!is_likely_gbk(&[0xFF]));
}

#[test]
fn ascii_names_ignore_case() {
    for name in ["gb2312", "GB2312", "Gb2312", "cp936", "CP936", "utf8", "UTF8", "Utf-8"] {
        let lower = name.to_ascii_lowercase();
        let upper = name.to_ascii_uppercase();
        assert_eq!(get_encoding(name), get_encoding(&lower));
        assert_eq!(get_encoding(name), get_encoding(&upper));
    }
    assert_eq!(get_encoding("gb2312"), Some(gbk()));
    assert_eq!(get_encoding("cp936"), Some(gbk()));
    assert_eq!(get_encoding("utf8"), Some(utf_8()));
    assert_eq!(get_encoding("no-such-encoding"), None);
}
