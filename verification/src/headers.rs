//! The boundary to the HTTP library: which header names and values it
//! accepts.
//!
//! The two functions at the end of this file call `reqwest::header`, which is
//! the header module of the `http` crate. The verifier takes what is said of
//! them on trust.

use reqwest::header::{HeaderName, HeaderValue};
use vstd::prelude::*;

verus! {

/// The greatest number of bytes that the name of an HTTP header may have.
pub const MAX_HEADER_NAME_LEN: usize = 65535;

/// A character that may stand in the name of an HTTP header: an ASCII letter,
/// a digit, or one of ``!#$%&'*+-.^_`|~``.
pub open spec fn is_header_name_char(c: char) -> bool {
    let code = c as u32;
    ||| 97 <= code <= 122
    ||| 65 <= code <= 90
    ||| 48 <= code <= 57
    ||| c == '!'
    ||| c == '#'
    ||| c == '$'
    ||| c == '%'
    ||| c == '&'
    ||| c == '\''
    ||| c == '*'
    ||| c == '+'
    ||| c == '-'
    ||| c == '.'
    ||| c == '^'
    ||| c == '_'
    ||| c == '`'
    ||| c == '|'
    ||| c == '~'
}

/// Whether `text` is accepted as the name of an HTTP header: it is not empty,
/// not longer than [`MAX_HEADER_NAME_LEN`], and made of the characters of a
/// header name. Such a text is ASCII, so it has as many bytes as characters.
pub open spec fn is_header_name(text: Seq<char>) -> bool {
    &&& 1 <= text.len() <= MAX_HEADER_NAME_LEN
    &&& forall|i: int| 0 <= i < text.len() ==> is_header_name_char(#[trigger] text[i])
}

/// Calls `HeaderName::try_from(&str)`, which hands the bytes of the text to
/// `HeaderName::from_bytes`, and says whether the name was accepted. It is
/// accepted when it has between 1 and 65535 bytes and every byte is an ASCII
/// letter, a digit or one of ``!#$%&'*+-.^_`|~``; every byte of a character
/// beyond ASCII is refused.
#[verifier::external_body]
pub(crate) fn header_name_accepted(name: &str) -> (r: bool)
    ensures
        r == is_header_name(name@),
{
    HeaderName::try_from(name).is_ok()
}

/// A character that may stand in the value of an HTTP header: a tab, or any
/// character from the space upwards except the delete character.
pub open spec fn is_header_value_char(c: char) -> bool {
    c == '\t' || (c as u32 >= 32 && c as u32 != 127)
}

/// Whether `text` is accepted as the value of an HTTP header.
pub open spec fn is_header_value(text: Seq<char>) -> bool {
    forall|i: int| 0 <= i < text.len() ==> is_header_value_char(#[trigger] text[i])
}

/// Calls `HeaderValue::from_str` and says whether the value was accepted. It
/// is accepted when every byte of the text is a tab, or at least 32 and not
/// 127; the bytes of a character beyond ASCII are all above 127.
#[verifier::external_body]
pub(crate) fn header_value_accepted(value: &str) -> (r: bool)
    ensures
        r == is_header_value(value@),
{
    HeaderValue::from_str(value).is_ok()
}

} // verus!
