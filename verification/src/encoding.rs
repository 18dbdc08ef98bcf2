//! Text encodings and conversions between them, on top of `encoding_rs`.

use vstd::prelude::*;
use vstd::utf8::*;
use crate::text::{all_ascii, ascii_upper_seq, ascii_lower_seq, ascii_upper, ascii_lower, str_eq};

verus! {

#[verifier::external_type_specification]
#[verifier::external_body]
pub struct ExEncoding(encoding_rs::Encoding);

/// An encoding known to `encoding_rs`, together with its canonical name.
/// Values are only made by `lookup_label`, so the name is always the one
/// that `encoding_rs` gives the encoding.
#[derive(Clone, Copy, Debug, PartialEq, Eq)]
pub struct TextEncoding {
    handle: &'static encoding_rs::Encoding,
    name: &'static str,
}

impl View for TextEncoding {
    type V = Seq<char>;

    /// An encoding is identified by its canonical name.
    closed spec fn view(&self) -> Seq<char> {
        self.name@
    }
}

impl TextEncoding {
    /// The canonical name of this encoding (for example `"UTF-8"` or `"GBK"`).
    pub fn name(&self) -> (r: &'static str)
        ensures
            r@ == self@,
    {
        self.name
    }
}

/// The canonical names of the encodings of the Encoding Standard.
pub open spec fn is_encoding_name(s: Seq<char>) -> bool {
    ||| s == "Big5"@ ||| s == "EUC-JP"@ ||| s == "EUC-KR"@ ||| s == "GBK"@
    ||| s == "IBM866"@ ||| s == "ISO-2022-JP"@ ||| s == "ISO-8859-10"@
    ||| s == "ISO-8859-13"@ ||| s == "ISO-8859-14"@ ||| s == "ISO-8859-15"@
    ||| s == "ISO-8859-16"@ ||| s == "ISO-8859-2"@ ||| s == "ISO-8859-3"@
    ||| s == "ISO-8859-4"@ ||| s == "ISO-8859-5"@ ||| s == "ISO-8859-6"@
    ||| s == "ISO-8859-7"@ ||| s == "ISO-8859-8"@ ||| s == "ISO-8859-8-I"@
    ||| s == "KOI8-R"@ ||| s == "KOI8-U"@ ||| s == "Shift_JIS"@ ||| s == "UTF-16BE"@
    ||| s == "UTF-16LE"@ ||| s == "UTF-8"@ ||| s == "gb18030"@ ||| s == "macintosh"@
    ||| s == "replacement"@ ||| s == "windows-1250"@ ||| s == "windows-1251"@
    ||| s == "windows-1252"@ ||| s == "windows-1253"@ ||| s == "windows-1254"@
    ||| s == "windows-1255"@ ||| s == "windows-1256"@ ||| s == "windows-1257"@
    ||| s == "windows-1258"@ ||| s == "windows-874"@ ||| s == "x-mac-cyrillic"@
    ||| s == "x-user-defined"@
}

/// Encodings whose output encoding is UTF-8: encoding text with them gives its UTF-8 bytes.
pub open spec fn outputs_utf8(e: Seq<char>) -> bool {
    e == "UTF-8"@ || e == "UTF-16LE"@ || e == "UTF-16BE"@ || e == "replacement"@
}

/// Encodings in which the bytes 0x00..0x7F stand for U+0000..U+007F.
pub open spec fn ascii_compatible(e: Seq<char>) -> bool {
    is_encoding_name(e) && e != "replacement"@ && e != "UTF-16LE"@ && e != "UTF-16BE"@
        && e != "ISO-2022-JP"@
}

/// Every byte is below 0x80.
pub open spec fn all_ascii_bytes(b: Seq<u8>) -> bool {
    forall|i: int| 0 <= i < b.len() ==> b[i] < 0x80
}

/// The characters that ASCII bytes stand for.
pub open spec fn ascii_chars(b: Seq<u8>) -> Seq<char> {
    Seq::new(b.len(), |i: int| b[i] as char)
}

/// The bytes of ASCII characters.
pub open spec fn ascii_bytes(s: Seq<char>) -> Seq<u8> {
    Seq::new(s.len(), |i: int| s[i] as u8)
}

/// `data` begins with a UTF-8, UTF-16LE or UTF-16BE byte order mark.
pub open spec fn starts_with_bom(d: Seq<u8>) -> bool {
    (d.len() >= 3 && d[0] == 0xEF && d[1] == 0xBB && d[2] == 0xBF)
        || (d.len() >= 2 && d[0] == 0xFF && d[1] == 0xFE)
        || (d.len() >= 2 && d[0] == 0xFE && d[1] == 0xFF)
}

/// What `Encoding::for_label` gives for a label: the canonical name of the encoding, if any.
pub uninterp spec fn spec_for_label(label: Seq<char>) -> Option<Seq<char>>;

/// What `Encoding::decode` gives: the decoded text and whether malformed input was replaced.
pub uninterp spec fn spec_decode(encoding: Seq<char>, bytes: Seq<u8>) -> (Seq<char>, bool);

/// What `Encoding::encode` gives: the encoded bytes and whether unmappable characters were replaced.
pub uninterp spec fn spec_encode(encoding: Seq<char>, text: Seq<char>) -> (Seq<u8>, bool);

/// What `String::from_utf8_lossy` gives.
pub uninterp spec fn spec_utf8_lossy(bytes: Seq<u8>) -> Seq<char>;

/// What `str::to_uppercase` gives.
pub uninterp spec fn spec_to_uppercase(s: Seq<char>) -> Seq<char>;

/// Calls `encoding_rs::Encoding::for_label` and keeps the encoding with its name
/// (`Encoding::name`, the `name` field). The result is named by `spec_for_label`; besides,
/// the name is one of the forty canonical names, and every canonical name is a label of
/// its own encoding (the label table of encoding_rs lists each name, and the lookup ignores
/// ASCII case).
#[verifier::external_body]
pub(crate) fn lookup_label(label: &str) -> (r: Option<TextEncoding>)
    ensures
        r is Some <==> spec_for_label(label@) is Some,
        r is Some ==> spec_for_label(label@) == Some(r.unwrap()@),
        r is Some ==> is_encoding_name(r.unwrap()@),
        is_encoding_name(label@) ==> r is Some && r.unwrap()@ == label@,
{
    encoding_rs::Encoding::for_label(label.as_bytes()).map(|e| TextEncoding { handle: e, name: e.name() })
}

/// Calls `encoding_rs::Encoding::decode` (with BOM sniffing) and keeps the text and the error flag.
/// The result is named by `spec_decode`. Two facts from encoding_rs are stated besides: UTF-8
/// input without a byte order mark decodes without errors exactly when it is valid UTF-8, to
/// the characters it encodes; and ASCII bytes decode to themselves in an ASCII-compatible
/// encoding.
#[verifier::external_body]
pub(crate) fn decode(enc: TextEncoding, data: &[u8]) -> (r: (String, bool))
    ensures
        (r.0@, r.1) == spec_decode(enc@, data@),
        enc@ == "UTF-8"@ && !starts_with_bom(data@) ==> (r.1 == !valid_utf8(data@)),
        enc@ == "UTF-8"@ && !starts_with_bom(data@) && valid_utf8(data@) ==> r.0@ == decode_utf8(
            data@,
        ),
        ascii_compatible(enc@) && all_ascii_bytes(data@) ==> !r.1 && r.0@ == ascii_chars(data@),
{
    let (cow, _, had_errors) = enc.handle.decode(data);
    (cow.into_owned(), had_errors)
}

/// Calls `encoding_rs::Encoding::encode` and keeps the bytes and the error flag. The result is
/// named by `spec_encode`. Two facts from encoding_rs are stated besides: encodings whose output
/// encoding is UTF-8 give the UTF-8 bytes of the text without errors; ASCII text encodes to its
/// own bytes in an ASCII-compatible encoding other than ISO-2022-JP.
#[verifier::external_body]
pub(crate) fn encode(enc: TextEncoding, text: &str) -> (r: (Vec<u8>, bool))
    ensures
        (r.0@, r.1) == spec_encode(enc@, text@),
        outputs_utf8(enc@) ==> !r.1 && r.0@ == encode_utf8(text@),
        ascii_compatible(enc@) && all_ascii(text@) ==> !r.1 && r.0@ == ascii_bytes(text@),
{
    let (cow, _, had_errors) = enc.handle.encode(text);
    (cow.into_owned(), had_errors)
}

/// Calls `String::from_utf8_lossy`. Named by `spec_utf8_lossy`; valid UTF-8 is decoded unchanged.
#[verifier::external_body]
pub(crate) fn utf8_lossy(data: &[u8]) -> (r: String)
    ensures
        r@ == spec_utf8_lossy(data@),
        valid_utf8(data@) ==> r@ == decode_utf8(data@),
{
    String::from_utf8_lossy(data).into_owned()
}

/// Calls `std::str::from_utf8`: the text of valid UTF-8, or nothing.
#[verifier::external_body]
pub(crate) fn utf8_str(data: &[u8]) -> (r: Option<&str>)
    ensures
        r is Some <==> valid_utf8(data@),
        r matches Some(s) ==> s@ == decode_utf8(data@),
{
    std::str::from_utf8(data).ok()
}

/// Calls `str::to_uppercase`. Named by `spec_to_uppercase`; on ASCII text it is the ASCII
/// upper-casing.
#[verifier::external_body]
pub(crate) fn to_uppercase(s: &str) -> (r: String)
    ensures
        r@ == spec_to_uppercase(s@),
        all_ascii(s@) ==> r@ == ascii_upper_seq(s@),
{
    s.to_uppercase()
}

/// The encoding whose canonical name is `name`.
pub fn by_name(name: &str) -> (r: TextEncoding)
    requires
        is_encoding_name(name@),
    ensures
        r@ == name@,
{
    lookup_label(name).unwrap()
}

/// The UTF-8 encoding.
pub fn utf_8() -> (r: TextEncoding)
    ensures
        r@ == "UTF-8"@,
{
    by_name("UTF-8")
}

/// The GBK encoding.
pub fn gbk() -> (r: TextEncoding)
    ensures
        r@ == "GBK"@,
{
    by_name("GBK")
}

/// The UTF-16LE encoding.
pub fn utf_16le() -> (r: TextEncoding)
    ensures
        r@ == "UTF-16LE"@,
{
    by_name("UTF-16LE")
}

/// The UTF-16BE encoding.
pub fn utf_16be() -> (r: TextEncoding)
    ensures
        r@ == "UTF-16BE"@,
{
    by_name("UTF-16BE")
}

/// The fixed table of `get_encoding`: upper-cased names and the encoding each one selects.
pub open spec fn table_name(u: Seq<char>) -> Option<Seq<char>> {
    if u == "UTF-8"@ || u == "UTF8"@ {
        Some("UTF-8"@)
    } else if u == "GBK"@ || u == "CP936"@ || u == "GB2312"@ || u == "GB18030"@ {
        Some("GBK"@)
    } else if u == "BIG5"@ {
        Some("Big5"@)
    } else if u == "EUC-JP"@ {
        Some("EUC-JP"@)
    } else if u == "EUC-KR"@ {
        Some("EUC-KR"@)
    } else if u == "ISO-2022-JP"@ {
        Some("ISO-2022-JP"@)
    } else if u == "KOI8-R"@ {
        Some("KOI8-R"@)
    } else if u == "WINDOWS-1252"@ || u == "CP1252"@ {
        Some("windows-1252"@)
    } else if u == "UTF-16LE"@ {
        Some("UTF-16LE"@)
    } else if u == "UTF-16BE"@ {
        Some("UTF-16BE"@)
    } else if u == "IBM866"@ {
        Some("IBM866"@)
    } else if u == "ISO-8859-10"@ {
        Some("ISO-8859-10"@)
    } else if u == "ISO-8859-13"@ {
        Some("ISO-8859-13"@)
    } else if u == "ISO-8859-14"@ {
        Some("ISO-8859-14"@)
    } else if u == "ISO-8859-15"@ {
        Some("ISO-8859-15"@)
    } else if u == "ISO-8859-16"@ {
        Some("ISO-8859-16"@)
    } else if u == "ISO-8859-2"@ {
        Some("ISO-8859-2"@)
    } else if u == "ISO-8859-3"@ {
        Some("ISO-8859-3"@)
    } else if u == "ISO-8859-4"@ {
        Some("ISO-8859-4"@)
    } else if u == "ISO-8859-5"@ {
        Some("ISO-8859-5"@)
    } else if u == "ISO-8859-6"@ {
        Some("ISO-8859-6"@)
    } else if u == "ISO-8859-7"@ {
        Some("ISO-8859-7"@)
    } else if u == "ISO-8859-8"@ {
        Some("ISO-8859-8"@)
    } else if u == "MACINTOSH"@ {
        Some("macintosh"@)
    } else if u == "SHIFT_JIS"@ {
        Some("Shift_JIS"@)
    } else if u == "X-MAC-CYRILLIC"@ {
        Some("x-mac-cyrillic"@)
    } else {
        None
    }
}

/// The encoding that a name selects, once the name is upper-cased: an entry of the
/// fixed table, else whatever `Encoding::for_label` gives for the upper-cased name.
pub open spec fn encoding_for_upper(u: Seq<char>) -> Option<Seq<char>> {
    match table_name(u) {
        Some(n) => Some(n),
        None => spec_for_label(u),
    }
}

/// Looks an upper-cased name up in the fixed table.
pub fn table_lookup(u: &str) -> (r: Option<TextEncoding>)
    ensures
        r is Some <==> table_name(u@) is Some,
        r is Some ==> r.unwrap()@ == table_name(u@).unwrap(),
{
    if str_eq(u, "UTF-8") || str_eq(u, "UTF8") {
        Some(by_name("UTF-8"))
    } else if str_eq(u, "GBK") || str_eq(u, "CP936") || str_eq(u, "GB2312") || str_eq(u, "GB18030") {
        Some(by_name("GBK"))
    } else if str_eq(u, "BIG5") {
        Some(by_name("Big5"))
    } else if str_eq(u, "EUC-JP") {
        Some(by_name("EUC-JP"))
    } else if str_eq(u, "EUC-KR") {
        Some(by_name("EUC-KR"))
    } else if str_eq(u, "ISO-2022-JP") {
        Some(by_name("ISO-2022-JP"))
    } else if str_eq(u, "KOI8-R") {
        Some(by_name("KOI8-R"))
    } else if str_eq(u, "WINDOWS-1252") || str_eq(u, "CP1252") {
        Some(by_name("windows-1252"))
    } else if str_eq(u, "UTF-16LE") {
        Some(by_name("UTF-16LE"))
    } else if str_eq(u, "UTF-16BE") {
        Some(by_name("UTF-16BE"))
    } else if str_eq(u, "IBM866") {
        Some(by_name("IBM866"))
    } else if str_eq(u, "ISO-8859-10") {
        Some(by_name("ISO-8859-10"))
    } else if str_eq(u, "ISO-8859-13") {
        Some(by_name("ISO-8859-13"))
    } else if str_eq(u, "ISO-8859-14") {
        Some(by_name("ISO-8859-14"))
    } else if str_eq(u, "ISO-8859-15") {
        Some(by_name("ISO-8859-15"))
    } else if str_eq(u, "ISO-8859-16") {
        Some(by_name("ISO-8859-16"))
    } else if str_eq(u, "ISO-8859-2") {
        Some(by_name("ISO-8859-2"))
    } else if str_eq(u, "ISO-8859-3") {
        Some(by_name("ISO-8859-3"))
    } else if str_eq(u, "ISO-8859-4") {
        Some(by_name("ISO-8859-4"))
    } else if str_eq(u, "ISO-8859-5") {
        Some(by_name("ISO-8859-5"))
    } else if str_eq(u, "ISO-8859-6") {
        Some(by_name("ISO-8859-6"))
    } else if str_eq(u, "ISO-8859-7") {
        Some(by_name("ISO-8859-7"))
    } else if str_eq(u, "ISO-8859-8") {
        Some(by_name("ISO-8859-8"))
    } else if str_eq(u, "MACINTOSH") {
        Some(by_name("macintosh"))
    } else if str_eq(u, "SHIFT_JIS") {
        Some(by_name("Shift_JIS"))
    } else if str_eq(u, "X-MAC-CYRILLIC") {
        Some(by_name("x-mac-cyrillic"))
    } else {
        None
    }
}

/// The encoding selected by an already upper-cased name.
pub fn encoding_for_upper_name(u: &str) -> (r: Option<TextEncoding>)
    ensures
        r is Some <==> encoding_for_upper(u@) is Some,
        r is Some ==> r.unwrap()@ == encoding_for_upper(u@).unwrap(),
{
    match table_lookup(u) {
        Some(e) => Some(e),
        None => lookup_label(u),
    }
}

/// Gets an encoding by name, ignoring case. Returns `None` if not supported.
pub fn get_encoding(name: &str) -> (r: Option<TextEncoding>)
    ensures
        r is Some <==> encoding_for_upper(spec_to_uppercase(name@)) is Some,
        r is Some ==> r.unwrap()@ == encoding_for_upper(spec_to_uppercase(name@)).unwrap(),
        all_ascii(name@) ==> (r is Some <==> encoding_for_upper(ascii_upper_seq(name@)) is Some),
        all_ascii(name@) && r is Some ==> r.unwrap()@ == encoding_for_upper(
            ascii_upper_seq(name@),
        ).unwrap(),
{
    let upper = to_uppercase(name);
    encoding_for_upper_name(upper.as_str())
}


/// The text that `from_utf8` starts from: the decoded bytes when they are valid UTF-8, else nothing.
pub open spec fn utf8_text_or_empty(d: Seq<u8>) -> Seq<char> {
    if valid_utf8(d) {
        decode_utf8(d)
    } else {
        Seq::empty()
    }
}

/// The result of converting `data` from `src` to `target` through Unicode.
pub open spec fn converted(data: Seq<u8>, src: Seq<char>, target: Seq<char>) -> (Seq<u8>, bool) {
    let d = spec_decode(src, data);
    let e = spec_encode(target, d.0);
    (e.0, d.1 || e.1)
}

/// The text that `from_encoding` re-encodes: a lossy UTF-8 reading for a UTF-8 source,
/// else the decoded text.
pub open spec fn source_text(data: Seq<u8>, source: Seq<char>) -> Seq<char> {
    if source == "UTF-8"@ {
        spec_utf8_lossy(data)
    } else {
        spec_decode(source, data).0
    }
}

/// Converts bytes from `src_encoding` to UTF-8. Returns (utf8_bytes, had_errors).
pub fn to_utf8(data: &[u8], src_encoding: TextEncoding) -> (r: (Vec<u8>, bool))
    ensures
        r.0@ == encode_utf8(spec_decode(src_encoding@, data@).0),
        r.1 == spec_decode(src_encoding@, data@).1,
        src_encoding@ == "UTF-8"@ && !starts_with_bom(data@) && valid_utf8(data@) ==> r.0@
            == data@ && !r.1,
{
    let (text, had_errors) = decode(src_encoding, data);
    let bytes = text.as_str().as_bytes_vec();
    proof {
        if src_encoding@ == "UTF-8"@ && !starts_with_bom(data@) && valid_utf8(data@) {
            decode_utf8_encode_utf8(data@);
        }
    }
    (bytes, had_errors)
}

/// Converts UTF-8 bytes to `target_encoding`; bytes that are not valid UTF-8 count as empty
/// text. Returns (encoded_bytes, had_errors).
pub fn from_utf8(data: &[u8], target_encoding: TextEncoding) -> (r: (Vec<u8>, bool))
    ensures
        (r.0@, r.1) == spec_encode(target_encoding@, utf8_text_or_empty(data@)),
{
    proof {
        reveal_strlit("");
    }
    let s = utf8_str(data).unwrap_or("");
    assert(s@ == utf8_text_or_empty(data@));
    encode(target_encoding, s)
}

/// Converts bytes from `src_encoding` to `target_encoding` through Unicode.
/// Returns (converted_bytes, had_errors); errors of either step count.
pub fn to_encoding(data: &[u8], src_encoding: TextEncoding, target_encoding: TextEncoding) -> (r: (
    Vec<u8>,
    bool,
))
    ensures
        (r.0@, r.1) == converted(data@, src_encoding@, target_encoding@),
        ascii_compatible(src_encoding@) && all_ascii_bytes(data@) && (outputs_utf8(
            target_encoding@,
        ) || ascii_compatible(target_encoding@)) ==> r.0@ == data@ && !r.1,
        src_encoding@ == "UTF-8"@ && outputs_utf8(target_encoding@) && !starts_with_bom(data@)
            && valid_utf8(data@) ==> r.0@ == data@ && !r.1,
{
    let (text, decode_errors) = decode(src_encoding, data);
    let (bytes, encode_errors) = encode(target_encoding, text.as_str());
    proof {
        if ascii_compatible(src_encoding@) && all_ascii_bytes(data@) {
            assert(all_ascii(text@));
            if outputs_utf8(target_encoding@) {
                lemma_ascii_utf8(data@);
            } else if ascii_compatible(target_encoding@) {
                assert(ascii_bytes(ascii_chars(data@)) =~= data@);
            }
        }
        if src_encoding@ == "UTF-8"@ && outputs_utf8(target_encoding@) && !starts_with_bom(data@)
            && valid_utf8(data@) {
            decode_utf8_encode_utf8(data@);
        }
    }
    (bytes, decode_errors || encode_errors)
}

/// Converts bytes from `source_encoding` to `target_encoding` through Unicode. A UTF-8 source
/// is read lossily, since a chunked write may split a multi-byte sequence. Only errors of the
/// encoding step are reported.
pub fn from_encoding(data: &[u8], source_encoding: TextEncoding, target_encoding: TextEncoding) -> (r: (
    Vec<u8>,
    bool,
))
    ensures
        (r.0@, r.1) == spec_encode(target_encoding@, source_text(data@, source_encoding@)),
        source_encoding@ == "UTF-8"@ && valid_utf8(data@) && outputs_utf8(target_encoding@)
            ==> r.0@ == data@ && !r.1,
        source_encoding@ == "UTF-8"@ && valid_utf8(data@) && all_ascii_bytes(data@)
            && ascii_compatible(target_encoding@) ==> r.0@ == data@ && !r.1,
{
    let text = if str_eq(source_encoding.name(), "UTF-8") {
        utf8_lossy(data)
    } else {
        let (t, _) = decode(source_encoding, data);
        t
    };
    let (bytes, encode_errors) = encode(target_encoding, text.as_str());
    proof {
        if source_encoding@ == "UTF-8"@ && valid_utf8(data@) {
            decode_utf8_encode_utf8(data@);
            if all_ascii_bytes(data@) {
                lemma_ascii_decode(data@);
                assert(ascii_bytes(ascii_chars(data@)) =~= data@);
            }
        }
    }
    (bytes, encode_errors)
}

/// ASCII bytes are valid UTF-8 standing for the same characters, and encode back to themselves.
pub proof fn lemma_ascii_decode(d: Seq<u8>)
    requires
        all_ascii_bytes(d),
    ensures
        valid_utf8(d),
        decode_utf8(d) == ascii_chars(d),
        all_ascii(ascii_chars(d)),
    decreases d.len(),
{
    if d.len() > 0 {
        let b = d[0];
        assert(b < 0x80);
        assert((b & 0x7f) as u32 == b as u32) by (bit_vector)
            requires
                b < 0x80,
        ;
        let rest = d.subrange(1, d.len() as int);
        lemma_ascii_decode(rest);
        assert(pop_first_scalar(d) =~= rest);
        assert(ascii_chars(d) =~= seq![b as char] + ascii_chars(rest));
    } else {
        assert(ascii_chars(d) =~= Seq::<char>::empty());
    }
}

/// The UTF-8 encoding of ASCII characters is their bytes.
pub proof fn lemma_ascii_utf8(d: Seq<u8>)
    requires
        all_ascii_bytes(d),
    ensures
        encode_utf8(ascii_chars(d)) == d,
{
    lemma_ascii_decode(d);
    decode_utf8_encode_utf8(d);
}

/// Whether `data` decodes as UTF-8 without errors to a non-empty text.
pub fn is_likely_utf8(data: &[u8]) -> (r: bool)
    ensures
        r == (!spec_decode("UTF-8"@, data@).1 && spec_decode("UTF-8"@, data@).0.len() > 0),
{
    let (text, had_errors) = decode(utf_8(), data);
    !had_errors && !text.as_str().is_empty()
}

/// Whether `data` decodes as GBK without errors.
pub fn is_likely_gbk(data: &[u8]) -> (r: bool)
    ensures
        r == !spec_decode("GBK"@, data@).1,
{
    let (_, had_errors) = decode(gbk(), data);
    !had_errors
}

/// Encoding names in ASCII are looked up ignoring case: a name, its ASCII lower-case
/// form and its ASCII upper-case form are all ASCII and upper-case alike, so `get_encoding`
/// gives the same answer for the three.
pub proof fn law_ascii_names_ignore_case(name: Seq<char>)
    requires
        all_ascii(name),
    ensures
        all_ascii(ascii_lower_seq(name)),
        all_ascii(ascii_upper_seq(name)),
        ascii_upper_seq(ascii_lower_seq(name)) == ascii_upper_seq(name),
        ascii_upper_seq(ascii_upper_seq(name)) == ascii_upper_seq(name),
{
    assert forall|i: int| 0 <= i < name.len() implies ascii_upper(ascii_lower(name[i])) == ascii_upper(
        name[i],
    ) && ascii_upper(ascii_upper(name[i])) == ascii_upper(name[i]) && (ascii_lower(name[i]) as u32)
        < 0x80 && (ascii_upper(name[i]) as u32) < 0x80 by {
        let c = name[i];
        let u = c as u32;
        if 'A' <= c && c <= 'Z' {
            assert((((u + 32) as char) as u32) == u + 32);
            assert(((((u + 32) as char) as u32 - 32) as char) == c);
        }
        if 'a' <= c && c <= 'z' {
            assert((((u - 32) as char) as u32) == u - 32);
        }
    }
    assert(ascii_upper_seq(ascii_lower_seq(name)) =~= ascii_upper_seq(name));
    assert(ascii_upper_seq(ascii_upper_seq(name)) =~= ascii_upper_seq(name));
}

/// The encodings that the fixed table of `get_encoding` names, by canonical name.
pub open spec fn in_name_table(c: Seq<char>) -> bool {
    ||| c == "UTF-8"@
    ||| c == "GBK"@
    ||| c == "Big5"@
    ||| c == "EUC-JP"@
    ||| c == "EUC-KR"@
    ||| c == "ISO-2022-JP"@
    ||| c == "KOI8-R"@
    ||| c == "windows-1252"@
    ||| c == "UTF-16LE"@
    ||| c == "UTF-16BE"@
    ||| c == "IBM866"@
    ||| c == "ISO-8859-10"@
    ||| c == "ISO-8859-13"@
    ||| c == "ISO-8859-14"@
    ||| c == "ISO-8859-15"@
    ||| c == "ISO-8859-16"@
    ||| c == "ISO-8859-2"@
    ||| c == "ISO-8859-3"@
    ||| c == "ISO-8859-4"@
    ||| c == "ISO-8859-5"@
    ||| c == "ISO-8859-6"@
    ||| c == "ISO-8859-7"@
    ||| c == "ISO-8859-8"@
    ||| c == "macintosh"@
    ||| c == "Shift_JIS"@
    ||| c == "x-mac-cyrillic"@
}

/// A configured name that is, ignoring ASCII case, the canonical name of an encoding of
/// the fixed table selects that very encoding: `euc-jp` and `EUC-JP` give EUC-JP,
/// `shift_jis` gives Shift_JIS, `WINDOWS-1252` gives windows-1252.
pub proof fn law_table_names_select_themselves(n: Seq<char>, c: Seq<char>)
    requires
        all_ascii(n),
        in_name_table(c),
        ascii_upper_seq(n) == ascii_upper_seq(c),
    ensures
        encoding_for_upper(ascii_upper_seq(n)) == Some(c),
{
    if c == "UTF-8"@ {
        reveal_strlit("UTF-8");
        assert(ascii_upper_seq(c) =~= "UTF-8"@);
        assert("UTF-8"@.len() == 5);
    }
    if c == "GBK"@ {
        reveal_strlit("UTF-8");
        reveal_strlit("UTF8");
        reveal_strlit("GBK");
        assert(ascii_upper_seq(c) =~= "GBK"@);
        assert("GBK"@.len() == 3);
        assert("UTF-8"@.len() == 5);
        assert("UTF8"@.len() == 4);
    }
    if c == "Big5"@ {
        reveal_strlit("UTF-8");
        reveal_strlit("UTF8");
        reveal_strlit("GBK");
        reveal_strlit("CP936");
        reveal_strlit("GB2312");
        reveal_strlit("GB18030");
        reveal_strlit("BIG5");
        reveal_strlit("Big5");
        assert(ascii_upper_seq(c) =~= "BIG5"@);
        assert("BIG5"@.len() == 4);
        assert("UTF-8"@.len() == 5);
        assert("BIG5"@[0] != "UTF8"@[0]);
        assert("GBK"@.len() == 3);
        assert("CP936"@.len() == 5);
        assert("GB2312"@.len() == 6);
        assert("GB18030"@.len() == 7);
    }
    if c == "EUC-JP"@ {
        reveal_strlit("UTF-8");
        reveal_strlit("UTF8");
        reveal_strlit("GBK");
        reveal_strlit("CP936");
        reveal_strlit("GB2312");
        reveal_strlit("GB18030");
        reveal_strlit("BIG5");
        reveal_strlit("EUC-JP");
        assert(ascii_upper_seq(c) =~= "EUC-JP"@);
        assert("EUC-JP"@.len() == 6);
        assert("UTF-8"@.len() == 5);
        assert("UTF8"@.len() == 4);
        assert("GBK"@.len() == 3);
        assert("CP936"@.len() == 5);
        assert("EUC-JP"@[0] != "GB2312"@[0]);
        assert("GB18030"@.len() == 7);
        assert("BIG5"@.len() == 4);
    }
    if c == "EUC-KR"@ {
        reveal_strlit("UTF-8");
        reveal_strlit("UTF8");
        reveal_strlit("GBK");
        reveal_strlit("CP936");
        reveal_strlit("GB2312");
        reveal_strlit("GB18030");
        reveal_strlit("BIG5");
        reveal_strlit("EUC-JP");
        reveal_strlit("EUC-KR");
        assert(ascii_upper_seq(c) =~= "EUC-KR"@);
        assert("EUC-KR"@.len() == 6);
        assert("UTF-8"@.len() == 5);
        assert("UTF8"@.len() == 4);
        assert("GBK"@.len() == 3);
        assert("CP936"@.len() == 5);
        assert("EUC-KR"@[0] != "GB2312"@[0]);
        assert("GB18030"@.len() == 7);
        assert("BIG5"@.len() == 4);
        assert("EUC-KR"@[4] != "EUC-JP"@[4]);
    }
    if c == "ISO-2022-JP"@ {
        reveal_strlit("UTF-8");
        reveal_strlit("UTF8");
        reveal_strlit("GBK");
        reveal_strlit("CP936");
        reveal_strlit("GB2312");
        reveal_strlit("GB18030");
        reveal_strlit("BIG5");
        reveal_strlit("EUC-JP");
        reveal_strlit("EUC-KR");
        reveal_strlit("ISO-2022-JP");
        assert(ascii_upper_seq(c) =~= "ISO-2022-JP"@);
        assert("ISO-2022-JP"@.len() == 11);
        assert("UTF-8"@.len() == 5);
        assert("UTF8"@.len() == 4);
        assert("GBK"@.len() == 3);
        assert("CP936"@.len() == 5);
        assert("GB2312"@.len() == 6);
        assert("GB18030"@.len() == 7);
        assert("BIG5"@.len() == 4);
        assert("EUC-JP"@.len() == 6);
        assert("EUC-KR"@.len() == 6);
    }
    if c == "KOI8-R"@ {
        reveal_strlit("UTF-8");
        reveal_strlit("UTF8");
        reveal_strlit("GBK");
        reveal_strlit("CP936");
        reveal_strlit("GB2312");
        reveal_strlit("GB18030");
        reveal_strlit("BIG5");
        reveal_strlit("EUC-JP");
        reveal_strlit("EUC-KR");
        reveal_strlit("ISO-2022-JP");
        reveal_strlit("KOI8-R");
        assert(ascii_upper_seq(c) =~= "KOI8-R"@);
        assert("KOI8-R"@.len() == 6);
        assert("UTF-8"@.len() == 5);
        assert("UTF8"@.len() == 4);
        assert("GBK"@.len() == 3);
        assert("CP936"@.len() == 5);
        assert("KOI8-R"@[0] != "GB2312"@[0]);
        assert("GB18030"@.len() == 7);
        assert("BIG5"@.len() == 4);
        assert("KOI8-R"@[0] != "EUC-JP"@[0]);
        assert("KOI8-R"@[0] != "EUC-KR"@[0]);
        assert("ISO-2022-JP"@.len() == 11);
    }
    if c == "windows-1252"@ {
        reveal_strlit("UTF-8");
        reveal_strlit("UTF8");
        reveal_strlit("GBK");
        reveal_strlit("CP936");
        reveal_strlit("GB2312");
        reveal_strlit("GB18030");
        reveal_strlit("BIG5");
        reveal_strlit("EUC-JP");
        reveal_strlit("EUC-KR");
        reveal_strlit("ISO-2022-JP");
        reveal_strlit("KOI8-R");
        reveal_strlit("WINDOWS-1252");
        reveal_strlit("windows-1252");
        assert(ascii_upper_seq(c) =~= "WINDOWS-1252"@);
        assert("WINDOWS-1252"@.len() == 12);
        assert("UTF-8"@.len() == 5);
        assert("UTF8"@.len() == 4);
        assert("GBK"@.len() == 3);
        assert("CP936"@.len() == 5);
        assert("GB2312"@.len() == 6);
        assert("GB18030"@.len() == 7);
        assert("BIG5"@.len() == 4);
        assert("EUC-JP"@.len() == 6);
        assert("EUC-KR"@.len() == 6);
        assert("ISO-2022-JP"@.len() == 11);
        assert("KOI8-R"@.len() == 6);
    }
    if c == "UTF-16LE"@ {
        reveal_strlit("UTF-8");
        reveal_strlit("UTF8");
        reveal_strlit("GBK");
        reveal_strlit("CP936");
        reveal_strlit("GB2312");
        reveal_strlit("GB18030");
        reveal_strlit("BIG5");
        reveal_strlit("EUC-JP");
        reveal_strlit("EUC-KR");
        reveal_strlit("ISO-2022-JP");
        reveal_strlit("KOI8-R");
        reveal_strlit("WINDOWS-1252");
        reveal_strlit("CP1252");
        reveal_strlit("UTF-16LE");
        assert(ascii_upper_seq(c) =~= "UTF-16LE"@);
        assert("UTF-16LE"@.len() == 8);
        assert("UTF-8"@.len() == 5);
        assert("UTF8"@.len() == 4);
        assert("GBK"@.len() == 3);
        assert("CP936"@.len() == 5);
        assert("GB2312"@.len() == 6);
        assert("GB18030"@.len() == 7);
        assert("BIG5"@.len() == 4);
        assert("EUC-JP"@.len() == 6);
        assert("EUC-KR"@.len() == 6);
        assert("ISO-2022-JP"@.len() == 11);
        assert("KOI8-R"@.len() == 6);
        assert("WINDOWS-1252"@.len() == 12);
        assert("CP1252"@.len() == 6);
    }
    if c == "UTF-16BE"@ {
        reveal_strlit("UTF-8");
        reveal_strlit("UTF8");
        reveal_strlit("GBK");
        reveal_strlit("CP936");
        reveal_strlit("GB2312");
        reveal_strlit("GB18030");
        reveal_strlit("BIG5");
        reveal_strlit("EUC-JP");
        reveal_strlit("EUC-KR");
        reveal_strlit("ISO-2022-JP");
        reveal_strlit("KOI8-R");
        reveal_strlit("WINDOWS-1252");
        reveal_strlit("CP1252");
        reveal_strlit("UTF-16LE");
        reveal_strlit("UTF-16BE");
        assert(ascii_upper_seq(c) =~= "UTF-16BE"@);
        assert("UTF-16BE"@.len() == 8);
        assert("UTF-8"@.len() == 5);
        assert("UTF8"@.len() == 4);
        assert("GBK"@.len() == 3);
        assert("CP936"@.len() == 5);
        assert("GB2312"@.len() == 6);
        assert("GB18030"@.len() == 7);
        assert("BIG5"@.len() == 4);
        assert("EUC-JP"@.len() == 6);
        assert("EUC-KR"@.len() == 6);
        assert("ISO-2022-JP"@.len() == 11);
        assert("KOI8-R"@.len() == 6);
        assert("WINDOWS-1252"@.len() == 12);
        assert("CP1252"@.len() == 6);
        assert("UTF-16BE"@[6] != "UTF-16LE"@[6]);
    }
    if c == "IBM866"@ {
        reveal_strlit("UTF-8");
        reveal_strlit("UTF8");
        reveal_strlit("GBK");
        reveal_strlit("CP936");
        reveal_strlit("GB2312");
        reveal_strlit("GB18030");
        reveal_strlit("BIG5");
        reveal_strlit("EUC-JP");
        reveal_strlit("EUC-KR");
        reveal_strlit("ISO-2022-JP");
        reveal_strlit("KOI8-R");
        reveal_strlit("WINDOWS-1252");
        reveal_strlit("CP1252");
        reveal_strlit("UTF-16LE");
        reveal_strlit("UTF-16BE");
        reveal_strlit("IBM866");
        assert(ascii_upper_seq(c) =~= "IBM866"@);
        assert("IBM866"@.len() == 6);
        assert("UTF-8"@.len() == 5);
        assert("UTF8"@.len() == 4);
        assert("GBK"@.len() == 3);
        assert("CP936"@.len() == 5);
        assert("IBM866"@[0] != "GB2312"@[0]);
        assert("GB18030"@.len() == 7);
        assert("BIG5"@.len() == 4);
        assert("IBM866"@[0] != "EUC-JP"@[0]);
        assert("IBM866"@[0] != "EUC-KR"@[0]);
        assert("ISO-2022-JP"@.len() == 11);
        assert("IBM866"@[0] != "KOI8-R"@[0]);
        assert("WINDOWS-1252"@.len() == 12);
        assert("IBM866"@[0] != "CP1252"@[0]);
        assert("UTF-16LE"@.len() == 8);
        assert("UTF-16BE"@.len() == 8);
    }
    if c == "ISO-8859-10"@ {
        reveal_strlit("UTF-8");
        reveal_strlit("UTF8");
        reveal_strlit("GBK");
        reveal_strlit("CP936");
        reveal_strlit("GB2312");
        reveal_strlit("GB18030");
        reveal_strlit("BIG5");
        reveal_strlit("EUC-JP");
        reveal_strlit("EUC-KR");
        reveal_strlit("ISO-2022-JP");
        reveal_strlit("KOI8-R");
        reveal_strlit("WINDOWS-1252");
        reveal_strlit("CP1252");
        reveal_strlit("UTF-16LE");
        reveal_strlit("UTF-16BE");
        reveal_strlit("IBM866");
        reveal_strlit("ISO-8859-10");
        assert(ascii_upper_seq(c) =~= "ISO-8859-10"@);
        assert("ISO-8859-10"@.len() == 11);
        assert("UTF-8"@.len() == 5);
        assert("UTF8"@.len() == 4);
        assert("GBK"@.len() == 3);
        assert("CP936"@.len() == 5);
        assert("GB2312"@.len() == 6);
        assert("GB18030"@.len() == 7);
        assert("BIG5"@.len() == 4);
        assert("EUC-JP"@.len() == 6);
        assert("EUC-KR"@.len() == 6);
        assert("ISO-8859-10"@[4] != "ISO-2022-JP"@[4]);
        assert("KOI8-R"@.len() == 6);
        assert("WINDOWS-1252"@.len() == 12);
        assert("CP1252"@.len() == 6);
        assert("UTF-16LE"@.len() == 8);
        assert("UTF-16BE"@.len() == 8);
        assert("IBM866"@.len() == 6);
    }
    if c == "ISO-8859-13"@ {
        reveal_strlit("UTF-8");
        reveal_strlit("UTF8");
        reveal_strlit("GBK");
        reveal_strlit("CP936");
        reveal_strlit("GB2312");
        reveal_strlit("GB18030");
        reveal_strlit("BIG5");
        reveal_strlit("EUC-JP");
        reveal_strlit("EUC-KR");
        reveal_strlit("ISO-2022-JP");
        reveal_strlit("KOI8-R");
        reveal_strlit("WINDOWS-1252");
        reveal_strlit("CP1252");
        reveal_strlit("UTF-16LE");
        reveal_strlit("UTF-16BE");
        reveal_strlit("IBM866");
        reveal_strlit("ISO-8859-10");
        reveal_strlit("ISO-8859-13");
        assert(ascii_upper_seq(c) =~= "ISO-8859-13"@);
        assert("ISO-8859-13"@.len() == 11);
        assert("UTF-8"@.len() == 5);
        assert("UTF8"@.len() == 4);
        assert("GBK"@.len() == 3);
        assert("CP936"@.len() == 5);
        assert("GB2312"@.len() == 6);
        assert("GB18030"@.len() == 7);
        assert("BIG5"@.len() == 4);
        assert("EUC-JP"@.len() == 6);
        assert("EUC-KR"@.len() == 6);
        assert("ISO-8859-13"@[4] != "ISO-2022-JP"@[4]);
        assert("KOI8-R"@.len() == 6);
        assert("WINDOWS-1252"@.len() == 12);
        assert("CP1252"@.len() == 6);
        assert("UTF-16LE"@.len() == 8);
        assert("UTF-16BE"@.len() == 8);
        assert("IBM866"@.len() == 6);
        assert("ISO-8859-13"@[10] != "ISO-8859-10"@[10]);
    }
    if c == "ISO-8859-14"@ {
        reveal_strlit("UTF-8");
        reveal_strlit("UTF8");
        reveal_strlit("GBK");
        reveal_strlit("CP936");
        reveal_strlit("GB2312");
        reveal_strlit("GB18030");
        reveal_strlit("BIG5");
        reveal_strlit("EUC-JP");
        reveal_strlit("EUC-KR");
        reveal_strlit("ISO-2022-JP");
        reveal_strlit("KOI8-R");
        reveal_strlit("WINDOWS-1252");
        reveal_strlit("CP1252");
        reveal_strlit("UTF-16LE");
        reveal_strlit("UTF-16BE");
        reveal_strlit("IBM866");
        reveal_strlit("ISO-8859-10");
        reveal_strlit("ISO-8859-13");
        reveal_strlit("ISO-8859-14");
        assert(ascii_upper_seq(c) =~= "ISO-8859-14"@);
        assert("ISO-8859-14"@.len() == 11);
        assert("UTF-8"@.len() == 5);
        assert("UTF8"@.len() == 4);
        assert("GBK"@.len() == 3);
        assert("CP936"@.len() == 5);
        assert("GB2312"@.len() == 6);
        assert("GB18030"@.len() == 7);
        assert("BIG5"@.len() == 4);
        assert("EUC-JP"@.len() == 6);
        assert("EUC-KR"@.len() == 6);
        assert("ISO-8859-14"@[4] != "ISO-2022-JP"@[4]);
        assert("KOI8-R"@.len() == 6);
        assert("WINDOWS-1252"@.len() == 12);
        assert("CP1252"@.len() == 6);
        assert("UTF-16LE"@.len() == 8);
        assert("UTF-16BE"@.len() == 8);
        assert("IBM866"@.len() == 6);
        assert("ISO-8859-14"@[10] != "ISO-8859-10"@[10]);
        assert("ISO-8859-14"@[10] != "ISO-8859-13"@[10]);
    }
    if c == "ISO-8859-15"@ {
        reveal_strlit("UTF-8");
        reveal_strlit("UTF8");
        reveal_strlit("GBK");
        reveal_strlit("CP936");
        reveal_strlit("GB2312");
        reveal_strlit("GB18030");
        reveal_strlit("BIG5");
        reveal_strlit("EUC-JP");
        reveal_strlit("EUC-KR");
        reveal_strlit("ISO-2022-JP");
        reveal_strlit("KOI8-R");
        reveal_strlit("WINDOWS-1252");
        reveal_strlit("CP1252");
        reveal_strlit("UTF-16LE");
        reveal_strlit("UTF-16BE");
        reveal_strlit("IBM866");
        reveal_strlit("ISO-8859-10");
        reveal_strlit("ISO-8859-13");
        reveal_strlit("ISO-8859-14");
        reveal_strlit("ISO-8859-15");
        assert(ascii_upper_seq(c) =~= "ISO-8859-15"@);
        assert("ISO-8859-15"@.len() == 11);
        assert("UTF-8"@.len() == 5);
        assert("UTF8"@.len() == 4);
        assert("GBK"@.len() == 3);
        assert("CP936"@.len() == 5);
        assert("GB2312"@.len() == 6);
        assert("GB18030"@.len() == 7);
        assert("BIG5"@.len() == 4);
        assert("EUC-JP"@.len() == 6);
        assert("EUC-KR"@.len() == 6);
        assert("ISO-8859-15"@[4] != "ISO-2022-JP"@[4]);
        assert("KOI8-R"@.len() == 6);
        assert("WINDOWS-1252"@.len() == 12);
        assert("CP1252"@.len() == 6);
        assert("UTF-16LE"@.len() == 8);
        assert("UTF-16BE"@.len() == 8);
        assert("IBM866"@.len() == 6);
        assert("ISO-8859-15"@[10] != "ISO-8859-10"@[10]);
        assert("ISO-8859-15"@[10] != "ISO-8859-13"@[10]);
        assert("ISO-8859-15"@[10] != "ISO-8859-14"@[10]);
    }
    if c == "ISO-8859-16"@ {
        reveal_strlit("UTF-8");
        reveal_strlit("UTF8");
        reveal_strlit("GBK");
        reveal_strlit("CP936");
        reveal_strlit("GB2312");
        reveal_strlit("GB18030");
        reveal_strlit("BIG5");
        reveal_strlit("EUC-JP");
        reveal_strlit("EUC-KR");
        reveal_strlit("ISO-2022-JP");
        reveal_strlit("KOI8-R");
        reveal_strlit("WINDOWS-1252");
        reveal_strlit("CP1252");
        reveal_strlit("UTF-16LE");
        reveal_strlit("UTF-16BE");
        reveal_strlit("IBM866");
        reveal_strlit("ISO-8859-10");
        reveal_strlit("ISO-8859-13");
        reveal_strlit("ISO-8859-14");
        reveal_strlit("ISO-8859-15");
        reveal_strlit("ISO-8859-16");
        assert(ascii_upper_seq(c) =~= "ISO-8859-16"@);
        assert("ISO-8859-16"@.len() == 11);
        assert("UTF-8"@.len() == 5);
        assert("UTF8"@.len() == 4);
        assert("GBK"@.len() == 3);
        assert("CP936"@.len() == 5);
        assert("GB2312"@.len() == 6);
        assert("GB18030"@.len() == 7);
        assert("BIG5"@.len() == 4);
        assert("EUC-JP"@.len() == 6);
        assert("EUC-KR"@.len() == 6);
        assert("ISO-8859-16"@[4] != "ISO-2022-JP"@[4]);
        assert("KOI8-R"@.len() == 6);
        assert("WINDOWS-1252"@.len() == 12);
        assert("CP1252"@.len() == 6);
        assert("UTF-16LE"@.len() == 8);
        assert("UTF-16BE"@.len() == 8);
        assert("IBM866"@.len() == 6);
        assert("ISO-8859-16"@[10] != "ISO-8859-10"@[10]);
        assert("ISO-8859-16"@[10] != "ISO-8859-13"@[10]);
        assert("ISO-8859-16"@[10] != "ISO-8859-14"@[10]);
        assert("ISO-8859-16"@[10] != "ISO-8859-15"@[10]);
    }
    if c == "ISO-8859-2"@ {
        reveal_strlit("UTF-8");
        reveal_strlit("UTF8");
        reveal_strlit("GBK");
        reveal_strlit("CP936");
        reveal_strlit("GB2312");
        reveal_strlit("GB18030");
        reveal_strlit("BIG5");
        reveal_strlit("EUC-JP");
        reveal_strlit("EUC-KR");
        reveal_strlit("ISO-2022-JP");
        reveal_strlit("KOI8-R");
        reveal_strlit("WINDOWS-1252");
        reveal_strlit("CP1252");
        reveal_strlit("UTF-16LE");
        reveal_strlit("UTF-16BE");
        reveal_strlit("IBM866");
        reveal_strlit("ISO-8859-10");
        reveal_strlit("ISO-8859-13");
        reveal_strlit("ISO-8859-14");
        reveal_strlit("ISO-8859-15");
        reveal_strlit("ISO-8859-16");
        reveal_strlit("ISO-8859-2");
        assert(ascii_upper_seq(c) =~= "ISO-8859-2"@);
        assert("ISO-8859-2"@.len() == 10);
        assert("UTF-8"@.len() == 5);
        assert("UTF8"@.len() == 4);
        assert("GBK"@.len() == 3);
        assert("CP936"@.len() == 5);
        assert("GB2312"@.len() == 6);
        assert("GB18030"@.len() == 7);
        assert("BIG5"@.len() == 4);
        assert("EUC-JP"@.len() == 6);
        assert("EUC-KR"@.len() == 6);
        assert("ISO-2022-JP"@.len() == 11);
        assert("KOI8-R"@.len() == 6);
        assert("WINDOWS-1252"@.len() == 12);
        assert("CP1252"@.len() == 6);
        assert("UTF-16LE"@.len() == 8);
        assert("UTF-16BE"@.len() == 8);
        assert("IBM866"@.len() == 6);
        assert("ISO-8859-10"@.len() == 11);
        assert("ISO-8859-13"@.len() == 11);
        assert("ISO-8859-14"@.len() == 11);
        assert("ISO-8859-15"@.len() == 11);
        assert("ISO-8859-16"@.len() == 11);
    }
    if c == "ISO-8859-3"@ {
        reveal_strlit("UTF-8");
        reveal_strlit("UTF8");
        reveal_strlit("GBK");
        reveal_strlit("CP936");
        reveal_strlit("GB2312");
        reveal_strlit("GB18030");
        reveal_strlit("BIG5");
        reveal_strlit("EUC-JP");
        reveal_strlit("EUC-KR");
        reveal_strlit("ISO-2022-JP");
        reveal_strlit("KOI8-R");
        reveal_strlit("WINDOWS-1252");
        reveal_strlit("CP1252");
        reveal_strlit("UTF-16LE");
        reveal_strlit("UTF-16BE");
        reveal_strlit("IBM866");
        reveal_strlit("ISO-8859-10");
        reveal_strlit("ISO-8859-13");
        reveal_strlit("ISO-8859-14");
        reveal_strlit("ISO-8859-15");
        reveal_strlit("ISO-8859-16");
        reveal_strlit("ISO-8859-2");
        reveal_strlit("ISO-8859-3");
        assert(ascii_upper_seq(c) =~= "ISO-8859-3"@);
        assert("ISO-8859-3"@.len() == 10);
        assert("UTF-8"@.len() == 5);
        assert("UTF8"@.len() == 4);
        assert("GBK"@.len() == 3);
        assert("CP936"@.len() == 5);
        assert("GB2312"@.len() == 6);
        assert("GB18030"@.len() == 7);
        assert("BIG5"@.len() == 4);
        assert("EUC-JP"@.len() == 6);
        assert("EUC-KR"@.len() == 6);
        assert("ISO-2022-JP"@.len() == 11);
        assert("KOI8-R"@.len() == 6);
        assert("WINDOWS-1252"@.len() == 12);
        assert("CP1252"@.len() == 6);
        assert("UTF-16LE"@.len() == 8);
        assert("UTF-16BE"@.len() == 8);
        assert("IBM866"@.len() == 6);
        assert("ISO-8859-10"@.len() == 11);
        assert("ISO-8859-13"@.len() == 11);
        assert("ISO-8859-14"@.len() == 11);
        assert("ISO-8859-15"@.len() == 11);
        assert("ISO-8859-16"@.len() == 11);
        assert("ISO-8859-3"@[9] != "ISO-8859-2"@[9]);
    }
    if c == "ISO-8859-4"@ {
        reveal_strlit("UTF-8");
        reveal_strlit("UTF8");
        reveal_strlit("GBK");
        reveal_strlit("CP936");
        reveal_strlit("GB2312");
        reveal_strlit("GB18030");
        reveal_strlit("BIG5");
        reveal_strlit("EUC-JP");
        reveal_strlit("EUC-KR");
        reveal_strlit("ISO-2022-JP");
        reveal_strlit("KOI8-R");
        reveal_strlit("WINDOWS-1252");
        reveal_strlit("CP1252");
        reveal_strlit("UTF-16LE");
        reveal_strlit("UTF-16BE");
        reveal_strlit("IBM866");
        reveal_strlit("ISO-8859-10");
        reveal_strlit("ISO-8859-13");
        reveal_strlit("ISO-8859-14");
        reveal_strlit("ISO-8859-15");
        reveal_strlit("ISO-8859-16");
        reveal_strlit("ISO-8859-2");
        reveal_strlit("ISO-8859-3");
        reveal_strlit("ISO-8859-4");
        assert(ascii_upper_seq(c) =~= "ISO-8859-4"@);
        assert("ISO-8859-4"@.len() == 10);
        assert("UTF-8"@.len() == 5);
        assert("UTF8"@.len() == 4);
        assert("GBK"@.len() == 3);
        assert("CP936"@.len() == 5);
        assert("GB2312"@.len() == 6);
        assert("GB18030"@.len() == 7);
        assert("BIG5"@.len() == 4);
        assert("EUC-JP"@.len() == 6);
        assert("EUC-KR"@.len() == 6);
        assert("ISO-2022-JP"@.len() == 11);
        assert("KOI8-R"@.len() == 6);
        assert("WINDOWS-1252"@.len() == 12);
        assert("CP1252"@.len() == 6);
        assert("UTF-16LE"@.len() == 8);
        assert("UTF-16BE"@.len() == 8);
        assert("IBM866"@.len() == 6);
        assert("ISO-8859-10"@.len() == 11);
        assert("ISO-8859-13"@.len() == 11);
        assert("ISO-8859-14"@.len() == 11);
        assert("ISO-8859-15"@.len() == 11);
        assert("ISO-8859-16"@.len() == 11);
        assert("ISO-8859-4"@[9] != "ISO-8859-2"@[9]);
        assert("ISO-8859-4"@[9] != "ISO-8859-3"@[9]);
    }
    if c == "ISO-8859-5"@ {
        reveal_strlit("UTF-8");
        reveal_strlit("UTF8");
        reveal_strlit("GBK");
        reveal_strlit("CP936");
        reveal_strlit("GB2312");
        reveal_strlit("GB18030");
        reveal_strlit("BIG5");
        reveal_strlit("EUC-JP");
        reveal_strlit("EUC-KR");
        reveal_strlit("ISO-2022-JP");
        reveal_strlit("KOI8-R");
        reveal_strlit("WINDOWS-1252");
        reveal_strlit("CP1252");
        reveal_strlit("UTF-16LE");
        reveal_strlit("UTF-16BE");
        reveal_strlit("IBM866");
        reveal_strlit("ISO-8859-10");
        reveal_strlit("ISO-8859-13");
        reveal_strlit("ISO-8859-14");
        reveal_strlit("ISO-8859-15");
        reveal_strlit("ISO-8859-16");
        reveal_strlit("ISO-8859-2");
        reveal_strlit("ISO-8859-3");
        reveal_strlit("ISO-8859-4");
        reveal_strlit("ISO-8859-5");
        assert(ascii_upper_seq(c) =~= "ISO-8859-5"@);
        assert("ISO-8859-5"@.len() == 10);
        assert("UTF-8"@.len() == 5);
        assert("UTF8"@.len() == 4);
        assert("GBK"@.len() == 3);
        assert("CP936"@.len() == 5);
        assert("GB2312"@.len() == 6);
        assert("GB18030"@.len() == 7);
        assert("BIG5"@.len() == 4);
        assert("EUC-JP"@.len() == 6);
        assert("EUC-KR"@.len() == 6);
        assert("ISO-2022-JP"@.len() == 11);
        assert("KOI8-R"@.len() == 6);
        assert("WINDOWS-1252"@.len() == 12);
        assert("CP1252"@.len() == 6);
        assert("UTF-16LE"@.len() == 8);
        assert("UTF-16BE"@.len() == 8);
        assert("IBM866"@.len() == 6);
        assert("ISO-8859-10"@.len() == 11);
        assert("ISO-8859-13"@.len() == 11);
        assert("ISO-8859-14"@.len() == 11);
        assert("ISO-8859-15"@.len() == 11);
        assert("ISO-8859-16"@.len() == 11);
        assert("ISO-8859-5"@[9] != "ISO-8859-2"@[9]);
        assert("ISO-8859-5"@[9] != "ISO-8859-3"@[9]);
        assert("ISO-8859-5"@[9] != "ISO-8859-4"@[9]);
    }
    if c == "ISO-8859-6"@ {
        reveal_strlit("UTF-8");
        reveal_strlit("UTF8");
        reveal_strlit("GBK");
        reveal_strlit("CP936");
        reveal_strlit("GB2312");
        reveal_strlit("GB18030");
        reveal_strlit("BIG5");
        reveal_strlit("EUC-JP");
        reveal_strlit("EUC-KR");
        reveal_strlit("ISO-2022-JP");
        reveal_strlit("KOI8-R");
        reveal_strlit("WINDOWS-1252");
        reveal_strlit("CP1252");
        reveal_strlit("UTF-16LE");
        reveal_strlit("UTF-16BE");
        reveal_strlit("IBM866");
        reveal_strlit("ISO-8859-10");
        reveal_strlit("ISO-8859-13");
        reveal_strlit("ISO-8859-14");
        reveal_strlit("ISO-8859-15");
        reveal_strlit("ISO-8859-16");
        reveal_strlit("ISO-8859-2");
        reveal_strlit("ISO-8859-3");
        reveal_strlit("ISO-8859-4");
        reveal_strlit("ISO-8859-5");
        reveal_strlit("ISO-8859-6");
        assert(ascii_upper_seq(c) =~= "ISO-8859-6"@);
        assert("ISO-8859-6"@.len() == 10);
        assert("UTF-8"@.len() == 5);
        assert("UTF8"@.len() == 4);
        assert("GBK"@.len() == 3);
        assert("CP936"@.len() == 5);
        assert("GB2312"@.len() == 6);
        assert("GB18030"@.len() == 7);
        assert("BIG5"@.len() == 4);
        assert("EUC-JP"@.len() == 6);
        assert("EUC-KR"@.len() == 6);
        assert("ISO-2022-JP"@.len() == 11);
        assert("KOI8-R"@.len() == 6);
        assert("WINDOWS-1252"@.len() == 12);
        assert("CP1252"@.len() == 6);
        assert("UTF-16LE"@.len() == 8);
        assert("UTF-16BE"@.len() == 8);
        assert("IBM866"@.len() == 6);
        assert("ISO-8859-10"@.len() == 11);
        assert("ISO-8859-13"@.len() == 11);
        assert("ISO-8859-14"@.len() == 11);
        assert("ISO-8859-15"@.len() == 11);
        assert("ISO-8859-16"@.len() == 11);
        assert("ISO-8859-6"@[9] != "ISO-8859-2"@[9]);
        assert("ISO-8859-6"@[9] != "ISO-8859-3"@[9]);
        assert("ISO-8859-6"@[9] != "ISO-8859-4"@[9]);
        assert("ISO-8859-6"@[9] != "ISO-8859-5"@[9]);
    }
    if c == "ISO-8859-7"@ {
        reveal_strlit("UTF-8");
        reveal_strlit("UTF8");
        reveal_strlit("GBK");
        reveal_strlit("CP936");
        reveal_strlit("GB2312");
        reveal_strlit("GB18030");
        reveal_strlit("BIG5");
        reveal_strlit("EUC-JP");
        reveal_strlit("EUC-KR");
        reveal_strlit("ISO-2022-JP");
        reveal_strlit("KOI8-R");
        reveal_strlit("WINDOWS-1252");
        reveal_strlit("CP1252");
        reveal_strlit("UTF-16LE");
        reveal_strlit("UTF-16BE");
        reveal_strlit("IBM866");
        reveal_strlit("ISO-8859-10");
        reveal_strlit("ISO-8859-13");
        reveal_strlit("ISO-8859-14");
        reveal_strlit("ISO-8859-15");
        reveal_strlit("ISO-8859-16");
        reveal_strlit("ISO-8859-2");
        reveal_strlit("ISO-8859-3");
        reveal_strlit("ISO-8859-4");
        reveal_strlit("ISO-8859-5");
        reveal_strlit("ISO-8859-6");
        reveal_strlit("ISO-8859-7");
        assert(ascii_upper_seq(c) =~= "ISO-8859-7"@);
        assert("ISO-8859-7"@.len() == 10);
        assert("UTF-8"@.len() == 5);
        assert("UTF8"@.len() == 4);
        assert("GBK"@.len() == 3);
        assert("CP936"@.len() == 5);
        assert("GB2312"@.len() == 6);
        assert("GB18030"@.len() == 7);
        assert("BIG5"@.len() == 4);
        assert("EUC-JP"@.len() == 6);
        assert("EUC-KR"@.len() == 6);
        assert("ISO-2022-JP"@.len() == 11);
        assert("KOI8-R"@.len() == 6);
        assert("WINDOWS-1252"@.len() == 12);
        assert("CP1252"@.len() == 6);
        assert("UTF-16LE"@.len() == 8);
        assert("UTF-16BE"@.len() == 8);
        assert("IBM866"@.len() == 6);
        assert("ISO-8859-10"@.len() == 11);
        assert("ISO-8859-13"@.len() == 11);
        assert("ISO-8859-14"@.len() == 11);
        assert("ISO-8859-15"@.len() == 11);
        assert("ISO-8859-16"@.len() == 11);
        assert("ISO-8859-7"@[9] != "ISO-8859-2"@[9]);
        assert("ISO-8859-7"@[9] != "ISO-8859-3"@[9]);
        assert("ISO-8859-7"@[9] != "ISO-8859-4"@[9]);
        assert("ISO-8859-7"@[9] != "ISO-8859-5"@[9]);
        assert("ISO-8859-7"@[9] != "ISO-8859-6"@[9]);
    }
    if c == "ISO-8859-8"@ {
        reveal_strlit("UTF-8");
        reveal_strlit("UTF8");
        reveal_strlit("GBK");
        reveal_strlit("CP936");
        reveal_strlit("GB2312");
        reveal_strlit("GB18030");
        reveal_strlit("BIG5");
        reveal_strlit("EUC-JP");
        reveal_strlit("EUC-KR");
        reveal_strlit("ISO-2022-JP");
        reveal_strlit("KOI8-R");
        reveal_strlit("WINDOWS-1252");
        reveal_strlit("CP1252");
        reveal_strlit("UTF-16LE");
        reveal_strlit("UTF-16BE");
        reveal_strlit("IBM866");
        reveal_strlit("ISO-8859-10");
        reveal_strlit("ISO-8859-13");
        reveal_strlit("ISO-8859-14");
        reveal_strlit("ISO-8859-15");
        reveal_strlit("ISO-8859-16");
        reveal_strlit("ISO-8859-2");
        reveal_strlit("ISO-8859-3");
        reveal_strlit("ISO-8859-4");
        reveal_strlit("ISO-8859-5");
        reveal_strlit("ISO-8859-6");
        reveal_strlit("ISO-8859-7");
        reveal_strlit("ISO-8859-8");
        assert(ascii_upper_seq(c) =~= "ISO-8859-8"@);
        assert("ISO-8859-8"@.len() == 10);
        assert("UTF-8"@.len() == 5);
        assert("UTF8"@.len() == 4);
        assert("GBK"@.len() == 3);
        assert("CP936"@.len() == 5);
        assert("GB2312"@.len() == 6);
        assert("GB18030"@.len() == 7);
        assert("BIG5"@.len() == 4);
        assert("EUC-JP"@.len() == 6);
        assert("EUC-KR"@.len() == 6);
        assert("ISO-2022-JP"@.len() == 11);
        assert("KOI8-R"@.len() == 6);
        assert("WINDOWS-1252"@.len() == 12);
        assert("CP1252"@.len() == 6);
        assert("UTF-16LE"@.len() == 8);
        assert("UTF-16BE"@.len() == 8);
        assert("IBM866"@.len() == 6);
        assert("ISO-8859-10"@.len() == 11);
        assert("ISO-8859-13"@.len() == 11);
        assert("ISO-8859-14"@.len() == 11);
        assert("ISO-8859-15"@.len() == 11);
        assert("ISO-8859-16"@.len() == 11);
        assert("ISO-8859-8"@[9] != "ISO-8859-2"@[9]);
        assert("ISO-8859-8"@[9] != "ISO-8859-3"@[9]);
        assert("ISO-8859-8"@[9] != "ISO-8859-4"@[9]);
        assert("ISO-8859-8"@[9] != "ISO-8859-5"@[9]);
        assert("ISO-8859-8"@[9] != "ISO-8859-6"@[9]);
        assert("ISO-8859-8"@[9] != "ISO-8859-7"@[9]);
    }
    if c == "macintosh"@ {
        reveal_strlit("UTF-8");
        reveal_strlit("UTF8");
        reveal_strlit("GBK");
        reveal_strlit("CP936");
        reveal_strlit("GB2312");
        reveal_strlit("GB18030");
        reveal_strlit("BIG5");
        reveal_strlit("EUC-JP");
        reveal_strlit("EUC-KR");
        reveal_strlit("ISO-2022-JP");
        reveal_strlit("KOI8-R");
        reveal_strlit("WINDOWS-1252");
        reveal_strlit("CP1252");
        reveal_strlit("UTF-16LE");
        reveal_strlit("UTF-16BE");
        reveal_strlit("IBM866");
        reveal_strlit("ISO-8859-10");
        reveal_strlit("ISO-8859-13");
        reveal_strlit("ISO-8859-14");
        reveal_strlit("ISO-8859-15");
        reveal_strlit("ISO-8859-16");
        reveal_strlit("ISO-8859-2");
        reveal_strlit("ISO-8859-3");
        reveal_strlit("ISO-8859-4");
        reveal_strlit("ISO-8859-5");
        reveal_strlit("ISO-8859-6");
        reveal_strlit("ISO-8859-7");
        reveal_strlit("ISO-8859-8");
        reveal_strlit("MACINTOSH");
        reveal_strlit("macintosh");
        assert(ascii_upper_seq(c) =~= "MACINTOSH"@);
        assert("MACINTOSH"@.len() == 9);
        assert("UTF-8"@.len() == 5);
        assert("UTF8"@.len() == 4);
        assert("GBK"@.len() == 3);
        assert("CP936"@.len() == 5);
        assert("GB2312"@.len() == 6);
        assert("GB18030"@.len() == 7);
        assert("BIG5"@.len() == 4);
        assert("EUC-JP"@.len() == 6);
        assert("EUC-KR"@.len() == 6);
        assert("ISO-2022-JP"@.len() == 11);
        assert("KOI8-R"@.len() == 6);
        assert("WINDOWS-1252"@.len() == 12);
        assert("CP1252"@.len() == 6);
        assert("UTF-16LE"@.len() == 8);
        assert("UTF-16BE"@.len() == 8);
        assert("IBM866"@.len() == 6);
        assert("ISO-8859-10"@.len() == 11);
        assert("ISO-8859-13"@.len() == 11);
        assert("ISO-8859-14"@.len() == 11);
        assert("ISO-8859-15"@.len() == 11);
        assert("ISO-8859-16"@.len() == 11);
        assert("ISO-8859-2"@.len() == 10);
        assert("ISO-8859-3"@.len() == 10);
        assert("ISO-8859-4"@.len() == 10);
        assert("ISO-8859-5"@.len() == 10);
        assert("ISO-8859-6"@.len() == 10);
        assert("ISO-8859-7"@.len() == 10);
        assert("ISO-8859-8"@.len() == 10);
    }
    if c == "Shift_JIS"@ {
        reveal_strlit("UTF-8");
        reveal_strlit("UTF8");
        reveal_strlit("GBK");
        reveal_strlit("CP936");
        reveal_strlit("GB2312");
        reveal_strlit("GB18030");
        reveal_strlit("BIG5");
        reveal_strlit("EUC-JP");
        reveal_strlit("EUC-KR");
        reveal_strlit("ISO-2022-JP");
        reveal_strlit("KOI8-R");
        reveal_strlit("WINDOWS-1252");
        reveal_strlit("CP1252");
        reveal_strlit("UTF-16LE");
        reveal_strlit("UTF-16BE");
        reveal_strlit("IBM866");
        reveal_strlit("ISO-8859-10");
        reveal_strlit("ISO-8859-13");
        reveal_strlit("ISO-8859-14");
        reveal_strlit("ISO-8859-15");
        reveal_strlit("ISO-8859-16");
        reveal_strlit("ISO-8859-2");
        reveal_strlit("ISO-8859-3");
        reveal_strlit("ISO-8859-4");
        reveal_strlit("ISO-8859-5");
        reveal_strlit("ISO-8859-6");
        reveal_strlit("ISO-8859-7");
        reveal_strlit("ISO-8859-8");
        reveal_strlit("MACINTOSH");
        reveal_strlit("SHIFT_JIS");
        reveal_strlit("Shift_JIS");
        assert(ascii_upper_seq(c) =~= "SHIFT_JIS"@);
        assert("SHIFT_JIS"@.len() == 9);
        assert("UTF-8"@.len() == 5);
        assert("UTF8"@.len() == 4);
        assert("GBK"@.len() == 3);
        assert("CP936"@.len() == 5);
        assert("GB2312"@.len() == 6);
        assert("GB18030"@.len() == 7);
        assert("BIG5"@.len() == 4);
        assert("EUC-JP"@.len() == 6);
        assert("EUC-KR"@.len() == 6);
        assert("ISO-2022-JP"@.len() == 11);
        assert("KOI8-R"@.len() == 6);
        assert("WINDOWS-1252"@.len() == 12);
        assert("CP1252"@.len() == 6);
        assert("UTF-16LE"@.len() == 8);
        assert("UTF-16BE"@.len() == 8);
        assert("IBM866"@.len() == 6);
        assert("ISO-8859-10"@.len() == 11);
        assert("ISO-8859-13"@.len() == 11);
        assert("ISO-8859-14"@.len() == 11);
        assert("ISO-8859-15"@.len() == 11);
        assert("ISO-8859-16"@.len() == 11);
        assert("ISO-8859-2"@.len() == 10);
        assert("ISO-8859-3"@.len() == 10);
        assert("ISO-8859-4"@.len() == 10);
        assert("ISO-8859-5"@.len() == 10);
        assert("ISO-8859-6"@.len() == 10);
        assert("ISO-8859-7"@.len() == 10);
        assert("ISO-8859-8"@.len() == 10);
        assert("SHIFT_JIS"@[0] != "MACINTOSH"@[0]);
    }
    if c == "x-mac-cyrillic"@ {
        reveal_strlit("UTF-8");
        reveal_strlit("UTF8");
        reveal_strlit("GBK");
        reveal_strlit("CP936");
        reveal_strlit("GB2312");
        reveal_strlit("GB18030");
        reveal_strlit("BIG5");
        reveal_strlit("EUC-JP");
        reveal_strlit("EUC-KR");
        reveal_strlit("ISO-2022-JP");
        reveal_strlit("KOI8-R");
        reveal_strlit("WINDOWS-1252");
        reveal_strlit("CP1252");
        reveal_strlit("UTF-16LE");
        reveal_strlit("UTF-16BE");
        reveal_strlit("IBM866");
        reveal_strlit("ISO-8859-10");
        reveal_strlit("ISO-8859-13");
        reveal_strlit("ISO-8859-14");
        reveal_strlit("ISO-8859-15");
        reveal_strlit("ISO-8859-16");
        reveal_strlit("ISO-8859-2");
        reveal_strlit("ISO-8859-3");
        reveal_strlit("ISO-8859-4");
        reveal_strlit("ISO-8859-5");
        reveal_strlit("ISO-8859-6");
        reveal_strlit("ISO-8859-7");
        reveal_strlit("ISO-8859-8");
        reveal_strlit("MACINTOSH");
        reveal_strlit("SHIFT_JIS");
        reveal_strlit("X-MAC-CYRILLIC");
        reveal_strlit("x-mac-cyrillic");
        assert(ascii_upper_seq(c) =~= "X-MAC-CYRILLIC"@);
        assert("X-MAC-CYRILLIC"@.len() == 14);
        assert("UTF-8"@.len() == 5);
        assert("UTF8"@.len() == 4);
        assert("GBK"@.len() == 3);
        assert("CP936"@.len() == 5);
        assert("GB2312"@.len() == 6);
        assert("GB18030"@.len() == 7);
        assert("BIG5"@.len() == 4);
        assert("EUC-JP"@.len() == 6);
        assert("EUC-KR"@.len() == 6);
        assert("ISO-2022-JP"@.len() == 11);
        assert("KOI8-R"@.len() == 6);
        assert("WINDOWS-1252"@.len() == 12);
        assert("CP1252"@.len() == 6);
        assert("UTF-16LE"@.len() == 8);
        assert("UTF-16BE"@.len() == 8);
        assert("IBM866"@.len() == 6);
        assert("ISO-8859-10"@.len() == 11);
        assert("ISO-8859-13"@.len() == 11);
        assert("ISO-8859-14"@.len() == 11);
        assert("ISO-8859-15"@.len() == 11);
        assert("ISO-8859-16"@.len() == 11);
        assert("ISO-8859-2"@.len() == 10);
        assert("ISO-8859-3"@.len() == 10);
        assert("ISO-8859-4"@.len() == 10);
        assert("ISO-8859-5"@.len() == 10);
        assert("ISO-8859-6"@.len() == 10);
        assert("ISO-8859-7"@.len() == 10);
        assert("ISO-8859-8"@.len() == 10);
        assert("MACINTOSH"@.len() == 9);
        assert("SHIFT_JIS"@.len() == 9);
    }
}

/// The aliases of the fixed table.
pub open spec fn table_alias(a: Seq<char>, c: Seq<char>) -> bool {
    ||| (a == "UTF8"@ && c == "UTF-8"@)
    ||| (a == "CP936"@ && c == "GBK"@)
    ||| (a == "GB2312"@ && c == "GBK"@)
    ||| (a == "GB18030"@ && c == "GBK"@)
    ||| (a == "CP1252"@ && c == "windows-1252"@)
}

/// The aliases of the fixed table, in any ASCII case: `utf8` selects UTF-8; `cp936`,
/// `gb2312` and `gb18030` select GBK; `cp1252` selects windows-1252.
pub proof fn law_table_aliases(n: Seq<char>, a: Seq<char>, c: Seq<char>)
    requires
        all_ascii(n),
        table_alias(a, c),
        ascii_upper_seq(n) == a,
    ensures
        encoding_for_upper(ascii_upper_seq(n)) == Some(c),
{
    if a == "UTF8"@ && c == "UTF-8"@ {
        reveal_strlit("UTF-8");
        reveal_strlit("UTF8");
        assert("UTF8"@.len() == 4);
        assert("UTF-8"@.len() == 5);
    }
    if a == "CP936"@ && c == "GBK"@ {
        reveal_strlit("UTF-8");
        reveal_strlit("UTF8");
        reveal_strlit("GBK");
        reveal_strlit("CP936");
        assert("CP936"@.len() == 5);
        assert("CP936"@[0] != "UTF-8"@[0]);
        assert("UTF8"@.len() == 4);
        assert("GBK"@.len() == 3);
    }
    if a == "GB2312"@ && c == "GBK"@ {
        reveal_strlit("UTF-8");
        reveal_strlit("UTF8");
        reveal_strlit("GBK");
        reveal_strlit("CP936");
        reveal_strlit("GB2312");
        assert("GB2312"@.len() == 6);
        assert("UTF-8"@.len() == 5);
        assert("UTF8"@.len() == 4);
        assert("GBK"@.len() == 3);
        assert("CP936"@.len() == 5);
    }
    if a == "GB18030"@ && c == "GBK"@ {
        reveal_strlit("UTF-8");
        reveal_strlit("UTF8");
        reveal_strlit("GBK");
        reveal_strlit("CP936");
        reveal_strlit("GB2312");
        reveal_strlit("GB18030");
        assert("GB18030"@.len() == 7);
        assert("UTF-8"@.len() == 5);
        assert("UTF8"@.len() == 4);
        assert("GBK"@.len() == 3);
        assert("CP936"@.len() == 5);
        assert("GB2312"@.len() == 6);
    }
    if a == "CP1252"@ && c == "windows-1252"@ {
        reveal_strlit("UTF-8");
        reveal_strlit("UTF8");
        reveal_strlit("GBK");
        reveal_strlit("CP936");
        reveal_strlit("GB2312");
        reveal_strlit("GB18030");
        reveal_strlit("BIG5");
        reveal_strlit("EUC-JP");
        reveal_strlit("EUC-KR");
        reveal_strlit("ISO-2022-JP");
        reveal_strlit("KOI8-R");
        reveal_strlit("WINDOWS-1252");
        reveal_strlit("CP1252");
        reveal_strlit("windows-1252");
        assert("CP1252"@.len() == 6);
        assert("UTF-8"@.len() == 5);
        assert("UTF8"@.len() == 4);
        assert("GBK"@.len() == 3);
        assert("CP936"@.len() == 5);
        assert("CP1252"@[0] != "GB2312"@[0]);
        assert("GB18030"@.len() == 7);
        assert("BIG5"@.len() == 4);
        assert("CP1252"@[0] != "EUC-JP"@[0]);
        assert("CP1252"@[0] != "EUC-KR"@[0]);
        assert("ISO-2022-JP"@.len() == 11);
        assert("CP1252"@[0] != "KOI8-R"@[0]);
        assert("WINDOWS-1252"@.len() == 12);
    }
}

} // verus!
