//! The `Content-MD5` header of RFC 1864: an MD5 digest carried as standard
//! base64 text in a header value.
//!
//! [`ContentMd5`] holds the sixteen bytes of the digest. `ContentMd5::decode`
//! reads it from the first of a sequence of header values, and
//! `ContentMd5::encode` appends its padded, twenty-four character form to a
//! list of header values.
//!
//! The conversions are verified. What they take on trust is stated where it
//! is used: in [`value`] and [`name`], what `http` does with the bytes of a
//! header value and the text of a header name; in [`codec`], what the
//! `base64` crate's standard engine does.

pub mod codec;
pub mod content_md5;
pub mod name;
pub mod value;

pub use content_md5::ContentMd5;
