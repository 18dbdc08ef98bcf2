use encoding_vfs_core::detector::{detect_bom, detect_encoding};
use encoding_vfs_core::encoding::{gbk, get_encoding, utf_16be, utf_16le, utf_8};

#[test]
fn test_detect_utf8_bom() {
    let data = &[0xEF, 0xBB, 0xBF, 0x48, 0x65, 0x6c, 0x6c, 0x6f];
    assert_eq!(detect_encoding(data, gbk()), utf_8());
}

#[test]
fn test_detect_utf16_le_bom() {
    let data = &[0xFF, 0xFE, 0x48, 0x00, 0x65, 0x00];
    assert_eq!(detect_encoding(data, gbk()), utf_16le());
}

#[test]
fn test_detect_plain_utf8() {
    let data = b"Hello, World!";
    assert_eq!(detect_encoding(data, gbk()), utf_8());
}

#[test]
fn test_detect_fallback() {
    let data: &[u8] = &[];
    assert_eq!(detect_encoding(data, gbk()), gbk());
}

#[test]
fn detect_utf16_be_bom() {
    assert_eq!(detect_encoding(&[0xFE, 0xFF, 0x00, 0x41], gbk()), utf_16be());
    assert_eq!(detect_bom(&[0xFE, 0xFF]), Some(utf_16be()));
    assert_eq!(detect_bom(&[0xFE]), None);
    assert_eq!(detect_bom(b"abc"), None);
}

#[test]
fn detect_gbk_text() {
    // "你好世界" in GBK is not valid UTF-8 but decodes as GBK.
    let data = b"\xC4\xE3\xBA\xC3\xCA\xC0\xBD\xE7";
    let fallback = get_encoding("Big5").unwrap();
    assert_eq!(detect_encoding(data, fallback), gbk());
}

#[test]
fn detect_mostly_multibyte_utf8() {
    // "你好世界" in UTF-8: valid, no ASCII at all.
    let data = "你好世界".as_bytes();
    assert_eq!(detect_encoding(data, gbk()), utf_8());
}

#[test]
fn detect_mostly_ascii_utf8_falls_to_gbk_check() {
    // Valid UTF-8 with one multi-byte character among much ASCII: at least half ASCII,
    // so UTF-8 is not preferred; the bytes E4 BD A0 do not decode as GBK cleanly, so the
    // fallback is used.
    let data = "hello world 你".as_bytes();
    let fallback = get_encoding("Big5").unwrap();
    let got = detect_encoding(data, fallback);
    let gbk_ok = encoding_vfs_core::encoding::is_likely_gbk(data);
    if gbk_ok {
        assert_eq!(got, gbk());
    } else {
        assert_eq!(got, fallback);
    }
}

#[test]
fn detect_invalid_everywhere_gives_default() {
    // 0x80 alone is invalid UTF-8; as GBK it is the euro sign, so GBK is chosen.
    assert_eq!(detect_encoding(&[0x80], utf_16le()), gbk());
    // 0xFF is invalid in both.
    assert_eq!(detect_encoding(&[0x41, 0xFF], utf_16le()), utf_16le());
}
