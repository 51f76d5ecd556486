//! Header values as byte strings, and the byte classes that `http` tells apart
//! when it turns a value into text and text into a value.

use http::header::{HeaderValue, InvalidHeaderValue, ToStrError};
use vstd::prelude::*;
use vstd::string::StringSliceAdditionalSpecFns;

verus! {

/// `http::header::HeaderValue`: one occurrence of a header field. It is known
/// here by the bytes that it holds, [`header_bytes`].
#[verifier::external_type_specification]
#[verifier::external_body]
pub struct ExHeaderValue(http::header::HeaderValue);

/// `http::header::ToStrError`: a header value is not text. Nothing is read
/// from it.
#[verifier::external_type_specification]
#[verifier::external_body]
pub struct ExToStrError(http::header::ToStrError);

/// `http::header::InvalidHeaderValue`: a text cannot be a header value.
/// Nothing is read from it.
#[verifier::external_type_specification]
#[verifier::external_body]
pub struct ExInvalidHeaderValue(http::header::InvalidHeaderValue);

/// The bytes that a header value holds, in order: what
/// `HeaderValue::as_bytes` hands out.
pub uninterp spec fn header_bytes(value: &HeaderValue) -> Seq<u8>;

/// A byte that may stand in a header value that is read as text: a tab, or a
/// printable ASCII character, the space included.
pub open spec fn is_visible_ascii(byte: u8) -> bool {
    32 <= byte < 127 || byte == 9
}

/// A byte that may stand in a header value at all: a tab, or anything from
/// the space upwards except DEL.
pub open spec fn is_value_byte(byte: u8) -> bool {
    (32 <= byte && byte != 127) || byte == 9
}

/// Every byte of `bytes` is visible ASCII.
pub open spec fn all_visible_ascii(bytes: Seq<u8>) -> bool {
    forall|i: int| 0 <= i < bytes.len() ==> is_visible_ascii(#[trigger] bytes[i])
}

/// Every byte of `bytes` may stand in a header value.
pub open spec fn all_value_bytes(bytes: Seq<u8>) -> bool {
    forall|i: int| 0 <= i < bytes.len() ==> is_value_byte(#[trigger] bytes[i])
}

/// `HeaderValue::len` is the number of bytes that the value holds.
pub assume_specification[ HeaderValue::len ](value: &HeaderValue) -> (n: usize)
    ensures
        n == header_bytes(value).len(),
;

/// `HeaderValue::to_str` scans the whole value and succeeds exactly when every
/// byte is visible ASCII; the text it then returns is those same bytes.
pub assume_specification<'a>[ HeaderValue::to_str ](value: &'a HeaderValue) -> (text: Result<
    &'a str,
    ToStrError,
>)
    ensures
        text is Ok <==> all_visible_ascii(header_bytes(value)),
        text matches Ok(t) ==> t.spec_bytes() == header_bytes(value),
;

/// `HeaderValue::from_str` scans the whole text and succeeds exactly when every
/// byte of it may stand in a header value; the value it then returns holds a
/// copy of those bytes.
pub assume_specification[ HeaderValue::from_str ](text: &str) -> (value: Result<
    HeaderValue,
    InvalidHeaderValue,
>)
    ensures
        value is Ok <==> all_value_bytes(text.spec_bytes()),
        value matches Ok(v) ==> header_bytes(&v) == text.spec_bytes(),
;

} // verus!
