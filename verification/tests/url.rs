use poli_page::path_encoding::{encode_path_segment, is_safe_for_encode_uri_component};

#[test]
fn alphanumeric_and_unreserved_pass_through_unchanged() {
    assert_eq!(encode_path_segment("doc_abc123"), "doc_abc123");
    assert_eq!(encode_path_segment("AZaz09"), "AZaz09");
    assert_eq!(encode_path_segment("-_.~!*'()"), "-_.~!*'()");
}

#[test]
fn slash_becomes_percent_2f() {
    assert_eq!(
        encode_path_segment("doc/with/slashes"),
        "doc%2Fwith%2Fslashes",
    );
}

#[test]
fn space_becomes_percent_20() {
    assert_eq!(encode_path_segment("doc id"), "doc%20id");
}

#[test]
fn ampersand_question_mark_hash_get_encoded() {
    assert_eq!(encode_path_segment("a&b?c#d"), "a%26b%3Fc%23d",);
}

#[test]
fn unicode_encoded_byte_by_byte_as_utf8() {
    // 'é' is U+00E9, two bytes in UTF-8: 0xC3 0xA9
    assert_eq!(encode_path_segment("café"), "caf%C3%A9");
}

#[test]
fn empty_string_returns_empty_string() {
    assert_eq!(encode_path_segment(""), "");
}

#[test]
fn reserved_ascii_bytes_are_all_escaped() {
    for b in 0u8..128 {
        let safe = is_safe_for_encode_uri_component(b);
        let s = (b as char).to_string();
        let out = encode_path_segment(&s);
        if safe {
            assert_eq!(out, s);
        } else {
            assert_eq!(out, format!("%{b:02X}"));
        }
    }
}

#[test]
fn encoded_segment_decodes_back_to_the_input() {
    let input = "doc/ä b?%#é€";
    let out = encode_path_segment(input);
    assert!(!out.contains('/'));
    let bytes = out.as_bytes();
    let mut decoded = Vec::new();
    let mut i = 0;
    while i < bytes.len() {
        if bytes[i] == b'%' {
            let hex = std::str::from_utf8(&bytes[i + 1..i + 3]).unwrap();
            decoded.push(u8::from_str_radix(hex, 16).unwrap());
            i += 3;
        } else {
            decoded.push(bytes[i]);
            i += 1;
        }
    }
    assert_eq!(decoded, input.as_bytes());
}
