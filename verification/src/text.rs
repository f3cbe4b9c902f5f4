//! Strings as sequences of characters, and what is taken for granted of the
//! functions that decode them.

use vstd::prelude::*;
use vstd::utf8::{encode_utf8, valid_utf8};

verus! {

#[verifier::external_type_specification]
#[verifier::external_body]
pub struct ExUtf8Error(core::str::Utf8Error);

/// `core::str::from_utf8` accepts exactly the byte sequences that are well
/// formed UTF-8, and the string that it returns is made of the bytes it was
/// given.
pub assume_specification[ core::str::from_utf8 ](v: &[u8]) -> (res: Result<
    &str,
    core::str::Utf8Error,
>)
    ensures
        res is Ok <==> valid_utf8(v@),
        res matches Ok(s) ==> encode_utf8(s@) == v@,
;

/// The text that percent-decoding makes of `input`: every `%` with two
/// hexadecimal digits behind it stands for one byte, and the bytes that result
/// are read as UTF-8. `None` where those bytes are not well-formed UTF-8.
pub uninterp spec fn percent_decoded(input: Seq<char>) -> Option<Seq<char>>;

/// `percent_encoding::percent_decode_str` and `PercentDecode::decode_utf8`
/// decode `input`. What comes out depends on `input` alone, and is named
/// `percent_decoded`.
#[verifier::external_body]
pub(crate) fn percent_decode_text(input: &str) -> (decoded: Option<String>)
    ensures
        match decoded {
            Some(text) => percent_decoded(input@) == Some(text@),
            None => percent_decoded(input@) is None,
        },
{
    match percent_encoding::percent_decode_str(input).decode_utf8() {
        Ok(text) => Some(text.into_owned()),
        Err(_) => None,
    }
}

/// The characters of `s`, in order.
pub fn chars_of(s: &str) -> (chars: Vec<char>)
    ensures
        chars@ == s@,
{
    let mut chars: Vec<char> = Vec::new();
    for c in it: s.chars()
        invariant
            it.seq() == s@,
            chars@ == s@.take(it.index() as int),
    {
        chars.push(c);
    }
    chars
}

} // verus!
