use vstd::prelude::*;
use vstd::string::{StringExecFns, StringSliceAdditionalSpecFns};
use vstd::utf8::encode_utf8;

use reqwest::header::{HeaderValue, InvalidHeaderValue};

use crate::error::Error;

verus! {

#[verifier::external_type_specification]
#[verifier::external_body]
pub struct ExHeaderValue(HeaderValue);

#[verifier::external_type_specification]
#[verifier::external_body]
pub struct ExInvalidHeaderValue(InvalidHeaderValue);

/// A character whose UTF-8 bytes may stand in a header value: a tab, or any
/// character from the space on but DEL.
pub open spec fn is_header_char(c: char) -> bool {
    c == '\t' || (' ' <= c && c != '\u{7f}')
}

/// Whether every character of `s` may stand in a header value.
pub open spec fn is_header_text(s: Seq<char>) -> bool {
    forall|i: int| 0 <= i < s.len() ==> is_header_char(#[trigger] s[i])
}

/// The bytes that a header value holds.
pub uninterp spec fn header_bytes(v: HeaderValue) -> Seq<u8>;

/// Relies on `http::HeaderValue::from_str` (re-exported by reqwest), which
/// accepts exactly the strings whose bytes are all a tab or in 32..=255 but
/// 127 (a character past ASCII encodes to bytes of 128 and more), and stores
/// a copy of the string's bytes.
pub assume_specification[ HeaderValue::from_str ](src: &str) -> (r: Result<
    HeaderValue,
    InvalidHeaderValue,
>)
    ensures
        r is Ok <==> is_header_text(src@),
        r matches Ok(v) ==> header_bytes(v) == src.spec_bytes(),
;

/// The credential, unless it is absent or empty.
pub fn check_token(value: Option<String>) -> (r: Result<String, Error>)
    ensures
        match value {
            Some(t) => if t@.len() > 0 {
                r == Ok::<String, Error>(t)
            } else {
                r == Err::<String, Error>(Error::NoToken)
            },
            None => r == Err::<String, Error>(Error::NoToken),
        },
{
    match value {
        Some(t) => {
            if t.as_str().is_empty() {
                Err(Error::NoToken)
            } else {
                Ok(t)
            }
        },
        None => Err(Error::NoToken),
    }
}

/// The text of the authorization header for `token`.
pub fn bearer(token: &str) -> (r: String)
    ensures
        r@ == "Bearer "@ + token@,
{
    let mut s = "Bearer ".to_owned();
    s.append(token);
    s
}

/// The authorization header for `token`, whose bytes are the UTF-8 encoding
/// of `Bearer <token>`; `InvalidToken` when the token holds a character that a
/// header cannot carry.
pub fn auth_header(token: &str) -> (r: Result<HeaderValue, Error>)
    ensures
        r is Ok <==> is_header_text(token@),
        r matches Ok(v) ==> header_bytes(v) == encode_utf8("Bearer "@ + token@),
        r is Err ==> r == Err::<HeaderValue, Error>(Error::InvalidToken),
{
    let text = bearer(token);
    proof {
        reveal_strlit("Bearer ");
        let full = "Bearer "@ + token@;
        assert(is_header_text(full) <==> is_header_text(token@)) by {
            if is_header_text(token@) {
                assert forall|i: int| 0 <= i < full.len() implies is_header_char(#[trigger] full[i]) by {
                    if i >= 7 {
                        assert(full[i] == token@[i - 7]);
                    }
                }
            }
            if is_header_text(full) {
                assert forall|i: int| 0 <= i < token@.len() implies is_header_char(#[trigger] token@[i]) by {
                    assert(full[i + 7] == token@[i]);
                }
            }
        }
    }
    match HeaderValue::from_str(text.as_str()) {
        Ok(v) => Ok(v),
        Err(_) => Err(Error::InvalidToken),
    }
}

} // verus!
