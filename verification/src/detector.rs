//! Guessing the encoding of file content.

use vstd::prelude::*;
use crate::encoding::{ascii_compatible, all_ascii_bytes, ascii_chars, TextEncoding, decode, spec_decode, is_likely_gbk, utf_8, gbk, utf_16le, utf_16be};
use crate::text::chars_of;

verus! {

/// The encoding announced by a byte order mark at the start of `d`, if any.
pub open spec fn bom_name(d: Seq<u8>) -> Option<Seq<char>> {
    if d.len() >= 3 && d[0] == 0xEF && d[1] == 0xBB && d[2] == 0xBF {
        Some("UTF-8"@)
    } else if d.len() >= 2 && d[0] == 0xFF && d[1] == 0xFE {
        Some("UTF-16LE"@)
    } else if d.len() >= 2 && d[0] == 0xFE && d[1] == 0xFF {
        Some("UTF-16BE"@)
    } else {
        None
    }
}

/// The number of ASCII characters in `s`.
pub open spec fn ascii_count(s: Seq<char>) -> nat
    decreases s.len(),
{
    if s.len() == 0 {
        0
    } else {
        ascii_count(s.drop_last()) + if (s.last() as u32) < 0x80 {
            1nat
        } else {
            0nat
        }
    }
}

/// Some byte of `d` is above 0x7F.
pub open spec fn has_high_byte(d: Seq<u8>) -> bool {
    exists|i: int| 0 <= i < d.len() && d[i] > 0x7f
}

/// `d` decodes as UTF-8 without errors to a non-empty text, and is either pure ASCII
/// or less than half ASCII characters.
pub open spec fn utf8_preferred(d: Seq<u8>) -> bool {
    let t = spec_decode("UTF-8"@, d);
    &&& !t.1
    &&& t.0.len() > 0
    &&& (!has_high_byte(d) || 2 * ascii_count(t.0) < t.0.len())
}

/// The encoding chosen for content `d` when `default` is the fallback.
pub open spec fn detected(d: Seq<u8>, default: Seq<char>) -> Seq<char> {
    if d.len() == 0 {
        default
    } else if bom_name(d) is Some {
        bom_name(d).unwrap()
    } else if utf8_preferred(d) {
        "UTF-8"@
    } else if !spec_decode("GBK"@, d).1 {
        "GBK"@
    } else {
        default
    }
}

/// Detects an encoding from a byte order mark (UTF-8, UTF-16LE, UTF-16BE).
pub fn detect_bom(data: &[u8]) -> (r: Option<TextEncoding>)
    ensures
        r is Some <==> bom_name(data@) is Some,
        r is Some ==> r.unwrap()@ == bom_name(data@).unwrap(),
{
    if data.len() >= 3 && data[0] == 0xEF && data[1] == 0xBB && data[2] == 0xBF {
        Some(utf_8())
    } else if data.len() >= 2 && data[0] == 0xFF && data[1] == 0xFE {
        Some(utf_16le())
    } else if data.len() >= 2 && data[0] == 0xFE && data[1] == 0xFF {
        Some(utf_16be())
    } else {
        None
    }
}

fn has_byte_above_7f(data: &[u8]) -> (r: bool)
    ensures
        r == has_high_byte(data@),
{
    let mut i: usize = 0;
    while i < data.len()
        invariant
            i <= data@.len(),
            forall|j: int| 0 <= j < i ==> data@[j] <= 0x7f,
        decreases data@.len() - i,
    {
        if data[i] > 0x7f {
            return true;
        }
        i += 1;
    }
    false
}

fn count_ascii(s: &Vec<char>) -> (n: usize)
    ensures
        n == ascii_count(s@),
        n <= s@.len(),
{
    let mut n: usize = 0;
    let mut i: usize = 0;
    while i < s.len()
        invariant
            i <= s@.len(),
            n == ascii_count(s@.subrange(0, i as int)),
            n <= i,
        decreases s@.len() - i,
    {
        proof {
            assert(s@.subrange(0, i + 1).drop_last() =~= s@.subrange(0, i as int));
        }
        if (s[i] as u32) < 0x80 {
            n += 1;
        }
        i += 1;
    }
    assert(s@.subrange(0, s@.len() as int) =~= s@);
    n
}

/// Detects the encoding of file content. An empty input gives `default`; a byte order
/// mark decides next; then valid UTF-8 that is pure ASCII or mostly non-ASCII gives
/// UTF-8; then input that decodes as GBK without errors gives GBK; else `default`.
pub fn detect_encoding(data: &[u8], default: TextEncoding) -> (r: TextEncoding)
    ensures
        r@ == detected(data@, default@),
        data@.len() > 0 && all_ascii_bytes(data@) ==> r@ == "UTF-8"@,
{
    proof {
        if data@.len() > 0 && all_ascii_bytes(data@) {
            reveal_strlit("UTF-8");
            reveal_strlit("replacement");
            reveal_strlit("UTF-16LE");
            reveal_strlit("UTF-16BE");
            reveal_strlit("ISO-2022-JP");
            assert("UTF-8"@.len() == 5);
            assert("replacement"@.len() == 11);
            assert("UTF-8"@ != "UTF-16LE"@) by { assert("UTF-8"@[4] != "UTF-16LE"@[4]); }
            assert("UTF-8"@ != "UTF-16BE"@) by { assert("UTF-8"@[4] != "UTF-16BE"@[4]); }
            assert(ascii_compatible("UTF-8"@));
            assert(!has_high_byte(data@));
            assert(ascii_chars(data@).len() > 0);
        }
    }
    if data.len() == 0 {
        return default;
    }
    if let Some(enc) = detect_bom(data) {
        return enc;
    }
    let (text, utf8_errors) = decode(utf_8(), data);
    if !utf8_errors && !text.as_str().is_empty() {
        if has_byte_above_7f(data) {
            let chars = chars_of(text.as_str());
            let ascii = count_ascii(&chars);
            if ascii < chars.len() - ascii {
                return utf_8();
            }
        } else {
            return utf_8();
        }
    }
    if is_likely_gbk(data) {
        return gbk();
    }
    default
}


/// A byte order mark decides before anything else.
pub proof fn law_bom_decides_first(d: Seq<u8>, default: Seq<char>)
    requires
        bom_name(d) is Some,
    ensures
        detected(d, default) == bom_name(d).unwrap(),
{
}

/// Content that is empty, or that has no byte order mark, is not preferred as UTF-8 and
/// does not decode as GBK, falls back to the default encoding.
pub proof fn law_fallback_to_default(d: Seq<u8>, default: Seq<char>)
    requires
        d.len() == 0 || (bom_name(d) is None && !utf8_preferred(d) && spec_decode("GBK"@, d).1),
    ensures
        detected(d, default) == default,
{
}

/// Detection only ever answers UTF-8, UTF-16LE, UTF-16BE, GBK or the default.
pub proof fn law_detection_range(d: Seq<u8>, default: Seq<char>)
    ensures
        detected(d, default) == "UTF-8"@ || detected(d, default) == "UTF-16LE"@ || detected(d, default)
            == "UTF-16BE"@ || detected(d, default) == "GBK"@ || detected(d, default) == default,
{
}

/// For content with no byte order mark, detection goes in a fixed order: UTF-8 when it
/// is preferred (valid, and pure ASCII or less than half ASCII); otherwise GBK whenever
/// the content decodes as GBK without errors, even if it is also valid UTF-8 (mostly
/// ASCII text with a few GBK characters can happen to be valid UTF-8); otherwise the
/// fallback.
pub proof fn law_detection_order(d: Seq<u8>, default: Seq<char>)
    requires
        d.len() > 0,
        bom_name(d) is None,
    ensures
        utf8_preferred(d) ==> detected(d, default) == "UTF-8"@,
        !utf8_preferred(d) && !spec_decode("GBK"@, d).1 ==> detected(d, default) == "GBK"@,
        !utf8_preferred(d) && spec_decode("GBK"@, d).1 ==> detected(d, default) == default,
        !spec_decode("UTF-8"@, d).1 && !utf8_preferred(d) && !spec_decode("GBK"@, d).1
            ==> detected(d, default) == "GBK"@,
{
}

} // verus!
