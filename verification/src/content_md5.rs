//! The digest type and its two conversions.

use crate::codec::{
    all_symbols_or_pad, decode_standard, encode_standard, standard_decoding, standard_encoding,
};
use crate::name::{header_name_text, is_name_char};
use crate::value::{all_value_bytes, all_visible_ascii, header_bytes};
use http::header::{HeaderName, HeaderValue};
use vstd::prelude::*;
use vstd::std_specs::iter::IteratorSpec;
use vstd::string::StringSliceAdditionalSpecFns;

verus! {

/// `headers::Error`, the error of every typed header. Nothing is read from it.
#[verifier::external_type_specification]
#[verifier::external_body]
pub struct ExError(headers::Error);

/// `headers::Error::invalid` makes the one error that a typed header reports.
pub assume_specification[ headers::Error::invalid ]() -> headers::Error
;

/// An MD5 digest: exactly sixteen bytes, in the order in which MD5 gives them.
#[derive(Clone, Copy, Debug, PartialEq)]
pub struct ContentMd5(pub [u8; 16]);

impl View for ContentMd5 {
    type V = Seq<u8>;

    open spec fn view(&self) -> Seq<u8> {
        self.0@
    }
}

/// The first sixteen bytes of `decoded`, with zero in each place that
/// `decoded` is too short to fill.
pub open spec fn leading_digest(decoded: Seq<u8>) -> Seq<u8> {
    Seq::new(16, |i: int| if i < decoded.len() { decoded[i] } else { 0u8 })
}

/// The digest that the bytes of one header value stand for, or `None` where
/// they stand for none: the value is 22 to 24 bytes long, is visible ASCII
/// throughout, and is standard base64 text; the digest is the front of what
/// that text decodes to.
pub open spec fn digest_of(raw: Seq<u8>) -> Option<Seq<u8>> {
    if 22 <= raw.len() <= 24 && all_visible_ascii(raw) {
        match standard_decoding(raw) {
            Some(decoded) => Some(leading_digest(decoded)),
            None => None,
        }
    } else {
        None
    }
}

/// Every digest has exactly sixteen bytes.
pub proof fn digest_has_sixteen_bytes(digest: ContentMd5)
    ensures
        digest@.len() == 16,
{
}

impl ContentMd5 {
    /// The name of the header, `content-md5`.
    pub fn name() -> (name: HeaderName)
        ensures
            header_name_text(&name) == "content-md5"@,
    {
        proof {
            reveal_strlit("content-md5");
            assert(forall|i: int|
                0 <= i < "content-md5"@.len() ==> is_name_char(#[trigger] "content-md5"@[i]));
        }
        HeaderName::from_static("content-md5")
    }

    /// Takes the digest from the front of a buffer that base64 text was
    /// decoded into. The two bytes of slack behind it are dropped.
    pub fn from_decoded(buffer: &[u8; 18]) -> (digest: ContentMd5)
        ensures
            digest@ == buffer@.subrange(0, 16),
    {
        let mut bytes: [u8; 16] = [0u8; 16];
        let mut i: usize = 0;
        while i < 16
            invariant
                i <= 16,
                forall|j: int| 0 <= j < i ==> bytes@[j] == buffer@[j],
            decreases 16 - i,
        {
            bytes[i] = buffer[i];
            i += 1;
        }
        ContentMd5(bytes)
    }

    /// Reads the digest that one header value carries.
    ///
    /// The value is turned away by its length alone unless it is 22 to 24
    /// bytes long; then it has to be visible ASCII, and standard base64 with
    /// canonical padding. Every failure is the same error.
    pub fn decode_value(value: &HeaderValue) -> (digest: Result<ContentMd5, headers::Error>)
        ensures
            digest matches Ok(d) ==> digest_of(header_bytes(value)) == Some(d@),
            digest is Err <==> digest_of(header_bytes(value)) is None,
            !(22 <= header_bytes(value).len() <= 24) ==> digest is Err,
            !all_symbols_or_pad(header_bytes(value)) ==> digest is Err,
    {
        // The encoded length must fit a sixteen-byte digest.
        if value.len() < 22 || value.len() > 24 {
            return Err(headers::Error::invalid());
        }
        let text = match value.to_str() {
            Ok(text) => text,
            Err(_) => {
                return Err(headers::Error::invalid());
            },
        };
        let mut buffer: [u8; 18] = [0u8; 18];
        match decode_standard(text, &mut buffer) {
            Ok(n) => {
                let digest = ContentMd5::from_decoded(&buffer);
                proof {
                    let decoded = standard_decoding(header_bytes(value))->Some_0;
                    let front = buffer@.subrange(0, n as int);
                    let rest = buffer@.subrange(n as int, 18);
                    assert forall|j: int| 0 <= j < 16 implies digest@[j] == leading_digest(
                        decoded,
                    )[j] by {
                        if j < n {
                            assert(buffer@[j] == front[j]);
                        } else {
                            assert(buffer@[j] == rest[j - n]);
                        }
                    }
                }
                Ok(digest)
            },
            Err(_) => Err(headers::Error::invalid()),
        }
    }

    /// Reads the digest from the first of `values`, and fails where there is
    /// none. Exactly one value is taken from `values`; what follows it is
    /// neither read nor asked for.
    ///
    /// The contract speaks of the values that `values` is yet to give, and so
    /// of an iterator that keeps the laws of iteration: it gives those values
    /// in order and then `None`.
    pub fn decode<'i, I: Iterator<Item = &'i HeaderValue>>(values: &mut I) -> (digest: Result<
        ContentMd5,
        headers::Error,
    >)
        ensures
            <I as IteratorSpec>::obeys_prophetic_iter_laws(old(values)) ==> {
                let coming = <I as IteratorSpec>::remaining(old(values));
                if coming.len() == 0 {
                    &&& digest is Err
                    &&& <I as IteratorSpec>::remaining(final(values)) == coming
                } else {
                    &&& digest matches Ok(d) ==> digest_of(header_bytes(coming[0])) == Some(d@)
                    &&& digest is Err <==> digest_of(header_bytes(coming[0])) is None
                    &&& !(22 <= header_bytes(coming[0]).len() <= 24) ==> digest is Err
                    &&& !all_symbols_or_pad(header_bytes(coming[0])) ==> digest is Err
                    &&& <I as IteratorSpec>::remaining(final(values)) == coming.drop_first()
                }
            },
    {
        match values.next() {
            Some(value) => ContentMd5::decode_value(value),
            None => Err(headers::Error::invalid()),
        }
    }

    /// Appends the digest to `values` as one header value: its standard
    /// base64 text, twenty-four characters with the padding. Decoding that
    /// value gives the digest back.
    pub fn encode(&self, values: &mut Vec<HeaderValue>)
        ensures
            final(values)@.len() == old(values)@.len() + 1,
            final(values)@.drop_last() == old(values)@,
            header_bytes(&final(values)@.last()) == standard_encoding(self@),
            header_bytes(&final(values)@.last()).len() == 24,
            all_symbols_or_pad(header_bytes(&final(values)@.last())),
            digest_of(header_bytes(&final(values)@.last())) == Some(self@),
    {
        let encoded = encode_standard(&self.0);
        assert(leading_digest(self@) =~= self@);
        push_value(encoded.as_str(), values);
    }
}

/// Appends `text` to `values` as a header value where it can be one, that is,
/// where each of its bytes may stand in a header value. Other text is dropped
/// and `values` is left as it was.
pub fn push_value(text: &str, values: &mut Vec<HeaderValue>)
    ensures
        all_value_bytes(text.spec_bytes()) ==> {
            &&& final(values)@.len() == old(values)@.len() + 1
            &&& final(values)@.drop_last() == old(values)@
            &&& header_bytes(&final(values)@.last()) == text.spec_bytes()
        },
        !all_value_bytes(text.spec_bytes()) ==> final(values)@ == old(values)@,
{
    if let Ok(value) = HeaderValue::from_str(text) {
        values.push(value);
    }
}

} // verus!
