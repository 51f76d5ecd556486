//! Header names, as far as a typed header needs them: one name, fixed when the
//! program is written.

use http::header::HeaderName;
use vstd::prelude::*;

verus! {

/// `http::header::HeaderName`. It is known here by its text,
/// [`header_name_text`].
#[verifier::external_type_specification]
#[verifier::external_body]
pub struct ExHeaderName(http::header::HeaderName);

/// The text of a header name, which is in lower case: what
/// `HeaderName::as_str` hands out.
pub uninterp spec fn header_name_text(name: &HeaderName) -> Seq<char>;

/// A lower-case letter, a digit or a hyphen.
pub open spec fn is_name_char(c: char) -> bool {
    'a' <= c <= 'z' || '0' <= c <= '9' || c == '-'
}

/// A text that can be a header name as it stands: not empty, under 64 KiB, and
/// made of lower-case letters, digits and hyphens.
pub open spec fn is_plain_name(text: Seq<char>) -> bool {
    &&& 1 <= text.len() <= 0xffff
    &&& forall|i: int| 0 <= i < text.len() ==> is_name_char(#[trigger] text[i])
}

/// `HeaderName::from_static` takes a name that is written in lower case and
/// keeps its text as it is. It panics on an empty or over-long text and on a
/// character that no lower-case header name holds; the plain names are clear
/// of all three.
pub assume_specification[ HeaderName::from_static ](src: &'static str) -> (name: HeaderName)
    requires
        is_plain_name(src@),
    ensures
        header_name_text(&name) == src@,
;

} // verus!
