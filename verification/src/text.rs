//! Text fields: UTF-8 decoding and trimming, as the standard library does
//! them.

use vstd::prelude::*;
use vstd::string::StringSliceAdditionalSpecFns;
use vstd::utf8::{decode_utf8, valid_utf8};

verus! {

/// Whether `c` is white space: whether it has the Unicode property
/// `White_Space`, which is what `char::is_whitespace` goes by. These are the
/// tab, the line feed, the vertical tab, the form feed, the carriage return,
/// the space, the next line, the no-break space, the Ogham space mark, the
/// spaces of fixed width from the en quad to the hair space, the line and
/// the paragraph separator, the narrow no-break space, the medium
/// mathematical space, and the ideographic space.
pub open spec fn white_space(c: char) -> bool {
    let code = c as u32;
    ||| 0x0009 <= code <= 0x000D
    ||| code == 0x0020
    ||| code == 0x0085
    ||| code == 0x00A0
    ||| code == 0x1680
    ||| 0x2000 <= code <= 0x200A
    ||| code == 0x2028
    ||| code == 0x2029
    ||| code == 0x202F
    ||| code == 0x205F
    ||| code == 0x3000
}

/// `s` without the white space at its start and at its end.
pub open spec fn trimmed(s: Seq<char>) -> Seq<char>
    decreases s.len(),
{
    if s.len() > 0 && white_space(s.first()) {
        trimmed(s.drop_first())
    } else if s.len() > 0 && white_space(s.last()) {
        trimmed(s.drop_last())
    } else {
        s
    }
}

/// The text that `bytes` encode; no text where they are not valid UTF-8.
pub open spec fn text_of(bytes: Seq<u8>) -> Option<Seq<char>> {
    if valid_utf8(bytes) {
        Some(decode_utf8(bytes))
    } else {
        None
    }
}

/// The error of `core::str::from_utf8`. Nothing is known of what it holds.
#[verifier::external_type_specification]
#[verifier::external_body]
pub struct ExUtf8Error(core::str::Utf8Error);

/// Calls `core::str::from_utf8`. Not verified: the contract repeats what the
/// standard library documents, that the call succeeds exactly on valid
/// UTF-8 and that the text is then made of the very bytes it was given.
#[verifier::external_body]
fn from_utf8<'a>(bytes: &'a [u8]) -> (text: Result<&'a str, core::str::Utf8Error>)
    ensures
        text is Ok <==> valid_utf8(bytes@),
        text matches Ok(s) ==> s.spec_bytes() == bytes@,
{
    core::str::from_utf8(bytes)
}

/// Calls `str::trim`. Not verified: the contract repeats what the standard
/// library documents, that leading and trailing white space is removed,
/// where white space is what has the Unicode property `White_Space`.
#[verifier::external_body]
fn trim<'a>(s: &'a str) -> (t: &'a str)
    ensures
        t@ == trimmed(s@),
{
    s.trim()
}

/// Decodes `bytes` as UTF-8.
pub fn read_text<'a>(bytes: &'a [u8]) -> (text: Option<&'a str>)
    ensures
        match text_of(bytes@) {
            Some(chars) => text matches Some(s) && s@ == chars,
            None => text is None,
        },
{
    broadcast use vstd::utf8::encode_utf8_decode_utf8;

    match from_utf8(bytes) {
        Ok(s) => {
            assert(decode_utf8(vstd::utf8::encode_utf8(s@)) == s@);
            Some(s)
        },
        Err(_) => None,
    }
}

/// Decodes `bytes` as UTF-8 and trims the text.
pub fn read_trimmed<'a>(bytes: &'a [u8]) -> (text: Option<&'a str>)
    ensures
        match text_of(bytes@) {
            Some(chars) => text matches Some(s) && s@ == trimmed(chars),
            None => text is None,
        },
{
    match read_text(bytes) {
        Some(s) => Some(trim(s)),
        None => None,
    }
}

/// Bytes below `0x80` are valid UTF-8, and their text is the bytes read as
/// characters.
pub proof fn lemma_ascii_text(bytes: Seq<u8>)
    requires
        forall|i: int| 0 <= i < bytes.len() ==> bytes[i] < 0x80,
    ensures
        text_of(bytes) == Some(Seq::new(bytes.len(), |i: int| bytes[i] as char)),
{
    let chars = Seq::new(bytes.len(), |i: int| bytes[i] as char);
    assert(vstd::utf8::is_ascii_chars(chars));
    vstd::utf8::is_ascii_chars_encode_utf8(chars);
    assert(vstd::utf8::encode_utf8(chars) =~= bytes);
    vstd::utf8::encode_utf8_valid_utf8(chars);
    vstd::utf8::encode_utf8_decode_utf8(chars);
}

/// A text that is padded with spaces trims to what stands before the
/// padding: where all of `s` from place `n` on is spaces, and what stands
/// before neither starts nor ends in white space.
pub proof fn lemma_trim_padding(s: Seq<char>, n: int)
    requires
        0 <= n <= s.len(),
        forall|i: int| n <= i < s.len() ==> s[i] == ' ',
        n > 0 ==> !white_space(s[0]) && !white_space(s[n - 1]),
    ensures
        trimmed(s) == s.take(n),
    decreases s.len(),
{
    if n == s.len() {
        assert(s.take(n) =~= s);
    } else if n == 0 {
        lemma_trim_padding(s.drop_first(), 0);
        assert(s.take(0) =~= s.drop_first().take(0));
    } else {
        lemma_trim_padding(s.drop_last(), n);
        assert(s.take(n) =~= s.drop_last().take(n));
    }
}

} // verus!
