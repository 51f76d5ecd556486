//! Standard base64 (RFC 4648, section 4) with `=` padding, as the `base64`
//! crate's `STANDARD` engine reads and writes it.
//!
//! The two directions are named, not spelled out: [`standard_encoding`] and
//! [`standard_decoding`] stand for what the engine computes, and the two
//! functions that call it say what is known of them.

use base64::DecodeSliceError;
use vstd::prelude::*;
use vstd::string::StringSliceAdditionalSpecFns;

verus! {

/// `base64::DecodeSliceError`: why a text was not decoded. Nothing is read
/// from it.
#[verifier::external_type_specification]
#[verifier::external_body]
pub struct ExDecodeSliceError(base64::DecodeSliceError);

/// The text, as bytes, that the `STANDARD` engine's `encode` gives for `bytes`.
pub uninterp spec fn standard_encoding(bytes: Seq<u8>) -> Seq<u8>;

/// The bytes that the `STANDARD` engine decodes `text` to, or `None` where it
/// reports an error in `text`.
pub uninterp spec fn standard_decoding(text: Seq<u8>) -> Option<Seq<u8>>;

/// One of the sixty-four characters of the standard alphabet:
/// `A`-`Z`, `a`-`z`, `0`-`9`, `+` and `/`.
pub open spec fn is_symbol(byte: u8) -> bool {
    ||| 0x41 <= byte <= 0x5a
    ||| 0x61 <= byte <= 0x7a
    ||| 0x30 <= byte <= 0x39
    ||| byte == 0x2b
    ||| byte == 0x2f
}

/// A character of the standard alphabet, or the padding character `=`.
pub open spec fn is_symbol_or_pad(byte: u8) -> bool {
    is_symbol(byte) || byte == 0x3d
}

/// Every byte of `text` is of the standard alphabet or is `=`.
pub open spec fn all_symbols_or_pad(text: Seq<u8>) -> bool {
    forall|i: int| 0 <= i < text.len() ==> is_symbol_or_pad(#[trigger] text[i])
}

/// `Engine::encode` of `base64::engine::general_purpose::STANDARD`, on sixteen
/// bytes.
///
/// Believed of it: the text is [`standard_encoding`] of the bytes; it is
/// twenty-four characters long (five full groups of three bytes and one padded
/// group), each of the standard alphabet or `=`; and the same engine decodes
/// it back to the bytes it was made from.
#[verifier::external_body]
pub(crate) fn encode_standard(bytes: &[u8; 16]) -> (text: String)
    ensures
        vstd::utf8::encode_utf8(text@) == standard_encoding(bytes@),
        vstd::utf8::encode_utf8(text@).len() == 24,
        all_symbols_or_pad(vstd::utf8::encode_utf8(text@)),
        standard_decoding(vstd::utf8::encode_utf8(text@)) == Some(bytes@),
{
    base64::Engine::encode(&base64::engine::general_purpose::STANDARD, bytes)
}

/// `Engine::decode_slice` of `base64::engine::general_purpose::STANDARD`, into
/// eighteen bytes, which is room enough for any text of up to twenty-four
/// bytes.
///
/// Believed of it: it succeeds exactly where [`standard_decoding`] of the text
/// is `Some`; it then returns the number of decoded bytes, has written them to
/// the front of `output` and has left the rest of `output` as it was; and a
/// text that it accepts holds nothing but characters of the standard alphabet
/// and `=`.
#[verifier::external_body]
pub(crate) fn decode_standard(text: &str, output: &mut [u8; 18]) -> (written: Result<
    usize,
    DecodeSliceError,
>)
    requires
        text.spec_bytes().len() <= 24,
    ensures
        written is Ok <==> standard_decoding(text.spec_bytes()) is Some,
        written matches Ok(n) ==> {
            &&& n <= 18
            &&& standard_decoding(text.spec_bytes()) == Some(final(output)@.subrange(0, n as int))
            &&& final(output)@.subrange(n as int, 18) == old(output)@.subrange(n as int, 18)
            &&& all_symbols_or_pad(text.spec_bytes())
        },
{
    base64::Engine::decode_slice(&base64::engine::general_purpose::STANDARD, text, output)
}

} // verus!
