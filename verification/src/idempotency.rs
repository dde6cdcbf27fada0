//! Idempotency keys for `POST` requests: the caller's own, or a fresh
//! random UUID v4.

use vstd::prelude::*;
use vstd::utf8::*;

use crate::request::{is_header_value_byte, is_header_value_text, standard_headers, HttpMethod};

verus! {

/// Whether `c` is a lower-case hexadecimal digit.
pub open spec fn is_lower_hex(c: char) -> bool {
    ('0' <= c && c <= '9') || ('a' <= c && c <= 'f')
}

/// The canonical text of a version-4 UUID: 36 characters, `8-4-4-4-12`
/// lower-case hex groups separated by `-`, the version nibble (position 14)
/// `4`, and the variant nibble (position 19) one of `8 9 a b`.
pub open spec fn is_uuid_v4_text(s: Seq<char>) -> bool {
    &&& s.len() == 36
    &&& forall|i: int| 0 <= i < 36 ==> (if i == 8 || i == 13 || i == 18 || i == 23 {
        s[i] == '-'
    } else {
        is_lower_hex(#[trigger] s[i])
    })
    &&& s[14] == '4'
    &&& (s[19] == '8' || s[19] == '9' || s[19] == 'a' || s[19] == 'b')
}

/// `uuid::Uuid::new_v4().to_string()`: a random version-4 UUID in its
/// canonical hyphenated lower-case form. Which UUID comes back is left open;
/// only its shape is promised.
#[verifier::external_body]
fn random_uuid_v4() -> (s: String)
    ensures
        is_uuid_v4_text(s@),
{
    uuid::Uuid::new_v4().to_string()
}

/// Generate a fresh v4 UUID as its 36-character lowercase string form.
pub fn new_v4_string() -> (s: String)
    ensures
        is_uuid_v4_text(s@),
{
    random_uuid_v4()
}

/// A fresh idempotency key for a `POST` the caller didn't key.
pub fn auto_idempotency_key() -> (s: String)
    ensures
        is_uuid_v4_text(s@),
{
    new_v4_string()
}

/// The idempotency key to send: the caller's own when supplied, otherwise a
/// fresh UUID v4.
pub fn idempotency_key_for(supplied: Option<&str>) -> (s: String)
    ensures
        supplied matches Some(k) ==> s@ == k@,
        supplied is None ==> is_uuid_v4_text(s@),
{
    match supplied {
        Some(k) => k.to_owned(),
        None => auto_idempotency_key(),
    }
}

/// A generated key is always sent: the text of a UUID v4 may stand in a
/// header value, so a `POST` keyed with it carries it as its
/// `idempotency-key` header, byte for byte.
pub proof fn lemma_generated_key_is_always_sent(key: Seq<char>, api_key: Seq<char>, user_agent: Seq<char>)
    requires
        is_uuid_v4_text(key),
    ensures
        is_header_value_text(key),
        standard_headers(HttpMethod::Post, api_key, Some(key), user_agent).dom().contains("idempotency-key"@),
        standard_headers(HttpMethod::Post, api_key, Some(key), user_agent)["idempotency-key"@] == encode_utf8(key),
{
    assert(is_ascii_chars(key)) by {
        assert forall|i: int| 0 <= i < key.len() implies '\0' <= #[trigger] key[i] <= '\u{7f}' by {
            if !(i == 8 || i == 13 || i == 18 || i == 23) {
                assert(is_lower_hex(key[i]));
            }
        }
    }
    is_ascii_chars_encode_utf8(key);
    assert forall|i: int| 0 <= i < encode_utf8(key).len() implies is_header_value_byte(#[trigger] encode_utf8(key)[i]) by {
        assert(key[i] as u8 == encode_utf8(key)[i]);
        if !(i == 8 || i == 13 || i == 18 || i == 23) {
            assert(is_lower_hex(key[i]));
        }
    }
}

} // verus!
