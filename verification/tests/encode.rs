use headers_content_md5::content_md5::push_value;
use headers_content_md5::ContentMd5;
use http::header::HeaderName;
use http::HeaderValue;

#[test]
fn encode_works() {
    let md5 = ContentMd5("Check Integrity!".as_bytes().try_into().unwrap());
    let mut header = Vec::default();
    md5.encode(&mut header);
    assert_eq!(header[0], "Q2hlY2sgSW50ZWdyaXR5IQ==");
}

#[test]
fn encode_appends_exactly_one_value() {
    let md5 = ContentMd5([0; 16]);
    let mut header = Vec::new();
    md5.encode(&mut header);
    assert_eq!(header.len(), 1);
    assert_eq!(header[0], "AAAAAAAAAAAAAAAAAAAAAA==");
}

#[test]
fn encode_gives_twenty_four_padded_characters() {
    let mut header = Vec::new();
    ContentMd5([0xff; 16]).encode(&mut header);
    assert_eq!(header[0].len(), 24);
    assert_eq!(header[0], "/////////////////////w==");
    assert!(header[0].as_bytes().ends_with(b"=="));
}

#[test]
fn encode_uses_the_standard_alphabet() {
    let mut header = Vec::new();
    ContentMd5([0xfb; 16]).encode(&mut header);
    assert_eq!(header[0], "+/v7+/v7+/v7+/v7+/v7+w==");
}

#[test]
fn encode_keeps_what_is_already_there() {
    let mut header = vec![HeaderValue::from_static("earlier")];
    ContentMd5([1, 2, 3, 4, 5, 6, 7, 8, 9, 10, 11, 12, 13, 14, 15, 16]).encode(&mut header);
    ContentMd5([0; 16]).encode(&mut header);
    assert_eq!(header.len(), 3);
    assert_eq!(header[0], "earlier");
    assert_eq!(header[1], "AQIDBAUGBwgJCgsMDQ4PEA==");
    assert_eq!(header[2], "AAAAAAAAAAAAAAAAAAAAAA==");
}

#[test]
fn encode_then_decode_gives_the_digest_back() {
    let mut digests: Vec<[u8; 16]> = vec![[0; 16], [0xff; 16], *b"Check Integrity!"];
    let mut counting = [0u8; 16];
    for seed in 0..=255u8 {
        for (i, byte) in counting.iter_mut().enumerate() {
            *byte = seed.wrapping_mul(31).wrapping_add((i as u8).wrapping_mul(17));
        }
        digests.push(counting);
    }
    for digest in digests {
        let mut header = Vec::new();
        ContentMd5(digest).encode(&mut header);
        assert_eq!(header.len(), 1);
        let back = ContentMd5::decode(&mut header.iter()).unwrap();
        assert_eq!(back.0, digest);
        assert_eq!(back, ContentMd5(digest));
    }
}

#[test]
fn decode_then_encode_gives_the_padded_text_back() {
    let value = HeaderValue::from_static("MDEyMzQ1Njc4OWFiY2RlZg==");
    let md5 = ContentMd5::decode_value(&value).unwrap();
    assert_eq!(md5.0, "0123456789abcdef".as_bytes());
    let mut header = Vec::new();
    md5.encode(&mut header);
    assert_eq!(header, vec![value]);
}

#[test]
fn push_value_appends_text_that_can_be_a_value() {
    let mut values = vec![HeaderValue::from_static("a")];
    push_value("b c", &mut values);
    push_value("", &mut values);
    push_value("caf\u{e9}", &mut values);
    assert_eq!(values.len(), 4);
    assert_eq!(values[1], "b c");
    assert_eq!(values[2], "");
    assert_eq!(values[3].as_bytes(), "caf\u{e9}".as_bytes());
}

#[test]
fn push_value_drops_text_that_cannot_be_a_value() {
    let mut values = vec![HeaderValue::from_static("a")];
    push_value("line\nbreak", &mut values);
    push_value("\u{7f}", &mut values);
    push_value("\0", &mut values);
    assert_eq!(values, vec![HeaderValue::from_static("a")]);
}

#[test]
fn push_value_takes_a_tab() {
    let mut values = Vec::new();
    push_value("a\tb", &mut values);
    assert_eq!(values.len(), 1);
    assert_eq!(values[0].as_bytes(), b"a\tb");
}

#[test]
fn name_is_content_md5() {
    let name = ContentMd5::name();
    assert_eq!(name.as_str(), "content-md5");
    assert_eq!(name, HeaderName::from_static("content-md5"));
    assert_eq!(name, "Content-MD5");
}
