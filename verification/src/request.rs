//! Shaping an API request: its absolute URL and its standard headers.

use vstd::prelude::*;
use vstd::string::*;
use vstd::utf8::*;

use http::{HeaderMap, HeaderValue};

use crate::error::Error;

verus! {

/// HTTP methods the client issues.
#[derive(Debug, Clone, Copy, PartialEq, Eq, Structural)]
pub enum HttpMethod {
    /// `GET`
    Get,
    /// `POST`
    Post,
    /// `DELETE`
    Delete,
}

impl HttpMethod {
    /// The method's name on the wire.
    pub open spec fn spec_name(self) -> Seq<char> {
        match self {
            HttpMethod::Get => "GET"@,
            HttpMethod::Post => "POST"@,
            HttpMethod::Delete => "DELETE"@,
        }
    }

    /// The method's name on the wire (`"GET"`, `"POST"`, `"DELETE"`).
    pub fn as_str(&self) -> (s: &'static str)
        ensures
            s@ == self.spec_name(),
    {
        match self {
            HttpMethod::Get => "GET",
            HttpMethod::Post => "POST",
            HttpMethod::Delete => "DELETE",
        }
    }
}

/// `s` without its trailing `/` characters.
pub open spec fn trim_trailing_slashes(s: Seq<char>) -> Seq<char>
    decreases s.len(),
{
    if s.len() > 0 && s.last() == '/' {
        trim_trailing_slashes(s.drop_last())
    } else {
        s
    }
}

/// The base handed to the URL parser keeps everything of the configured base
/// but its trailing slashes: it is a prefix of the base that does not end in
/// `/`, and what it leaves off is slashes only.
pub proof fn lemma_trimmed_base_is_prefix(s: Seq<char>)
    ensures
        trim_trailing_slashes(s).len() <= s.len(),
        trim_trailing_slashes(s) == s.subrange(0, trim_trailing_slashes(s).len() as int),
        trim_trailing_slashes(s).len() > 0 ==> trim_trailing_slashes(s).last() != '/',
        s.len() > 0 && s.last() != '/' ==> trim_trailing_slashes(s) == s,
        forall|i: int| trim_trailing_slashes(s).len() <= i < s.len() ==> #[trigger] s[i] == '/',
    decreases s.len(),
{
    if s.len() > 0 && s.last() == '/' {
        lemma_trimmed_base_is_prefix(s.drop_last());
        let t = trim_trailing_slashes(s.drop_last());
        assert(s.drop_last().subrange(0, t.len() as int) == s.subrange(0, t.len() as int));
        assert forall|i: int| t.len() <= i < s.len() implies #[trigger] s[i] == '/' by {
            if i < s.len() - 1 {
                assert(s[i] == s.drop_last()[i]);
            }
        }
    } else {
        assert(s.subrange(0, s.len() as int) == s);
    }
}

/// What `url::Url::parse` makes of `text`: the serialization of the parsed
/// URL, or the description (`Display`) of the parse error.
pub uninterp spec fn url_parse_outcome(text: Seq<char>) -> Result<Seq<char>, Seq<char>>;

/// `url::Url::parse`, handing back the parsed URL's serialization
/// (`Url::as_str`) or the parse error's description.
#[verifier::external_body]
pub(crate) fn parse_url(text: &str) -> (r: Result<String, String>)
    ensures
        match r {
            Ok(s) => url_parse_outcome(text@) == Ok::<Seq<char>, Seq<char>>(s@),
            Err(e) => url_parse_outcome(text@) == Err::<Seq<char>, Seq<char>>(e@),
        },
{
    match url::Url::parse(text) {
        Ok(u) => Ok(u.as_str().to_owned()),
        Err(e) => Err(e.to_string()),
    }
}

/// `base` without its trailing slashes.
fn trim_slashes_end(base: &str) -> (r: &str)
    ensures
        r@ == trim_trailing_slashes(base@),
{
    let n = base.unicode_len();
    let mut end = n;
    assert(base@.subrange(0, n as int) == base@);
    while end > 0 && base.get_char(end - 1) == '/'
        invariant
            end <= n,
            n == base@.len(),
            trim_trailing_slashes(base@.subrange(0, end as int)) == trim_trailing_slashes(base@),
        decreases end,
    {
        assert(base@.subrange(0, end as int).drop_last() == base@.subrange(0, end - 1));
        end = end - 1;
    }
    proof {
        let t = base@.subrange(0, end as int);
        if t.len() > 0 {
            assert(t.last() == base@[end - 1]);
        }
    }
    base.substring_char(0, end)
}

/// Build the absolute request URL from a base URL and an absolute path: the
/// base (without trailing slashes) is a fixed prefix — any path component it
/// carries, e.g. behind a reverse proxy, is kept — and `path` is appended,
/// then the result is parsed as a URL. Returns the URL's serialization, or
/// the parser's description of why it is not a URL.
pub fn build_url(base: &str, path: &str) -> (r: Result<String, String>)
    ensures
        match r {
            Ok(s) => url_parse_outcome(trim_trailing_slashes(base@) + path@) == Ok::<Seq<char>, Seq<char>>(s@),
            Err(e) => url_parse_outcome(trim_trailing_slashes(base@) + path@) == Err::<Seq<char>, Seq<char>>(e@),
        },
{
    let prefix = trim_slashes_end(base);
    let mut text = prefix.to_owned();
    text.append(path);
    parse_url(text.as_str())
}

/// The request URL for `path` under `base`, or the `InvalidOptions` error
/// `could not build url for {path}: {reason}` when it is not a URL.
pub fn request_url(base: &str, path: &str) -> (r: Result<String, Error>)
    ensures
        match url_parse_outcome(trim_trailing_slashes(base@) + path@) {
            Ok(u) => r matches Ok(s) && s@ == u,
            Err(why) => r matches Err(Error::InvalidOptions { message })
                && message@ == "could not build url for "@ + path@ + ": "@ + why,
        },
{
    match build_url(base, path) {
        Ok(u) => Ok(u),
        Err(why) => {
            let mut message = "could not build url for ".to_owned();
            message.append(path);
            message.append(": ");
            message.append(why.as_str());
            Err(Error::InvalidOptions { message })
        },
    }
}

#[verifier::external_type_specification]
#[verifier::external_body]
#[verifier::reject_recursive_types(T)]
pub struct ExHeaderMap<T>(http::HeaderMap<T>);

#[verifier::external_type_specification]
#[verifier::external_body]
pub struct ExHeaderValue(http::HeaderValue);

/// The headers a `HeaderMap` holds: each header name, lower-cased, with the
/// bytes of its (first) value.
pub uninterp spec fn header_entries(m: HeaderMap) -> Map<Seq<char>, Seq<u8>>;

/// The bytes a `HeaderValue` holds.
pub uninterp spec fn header_value_bytes(v: HeaderValue) -> Seq<u8>;

/// Bytes a header value may hold: visible ASCII, space, tab, and any byte
/// from 128 up.
pub open spec fn is_header_value_byte(b: u8) -> bool {
    (b >= 32 && b != 127) || b == 9
}

/// Whether every byte of the UTF-8 encoding of `text` may stand in a header
/// value.
pub open spec fn is_header_value_text(text: Seq<char>) -> bool {
    forall|i: int| 0 <= i < encode_utf8(text).len() ==> is_header_value_byte(#[trigger] encode_utf8(text)[i])
}

/// Characters of an HTTP token (RFC 9110 `tchar`).
pub open spec fn is_token_char(c: char) -> bool {
    ||| ('a' <= c && c <= 'z')
    ||| ('A' <= c && c <= 'Z')
    ||| ('0' <= c && c <= '9')
    ||| c == '!' || c == '#' || c == '$' || c == '%' || c == '&' || c == '\'' || c == '*'
    ||| c == '+' || c == '-' || c == '.' || c == '^' || c == '_' || c == '`' || c == '|' || c == '~'
}

/// A header name `HeaderMap::insert` accepts as a `&'static str`: a
/// non-empty token.
pub open spec fn is_header_name_text(name: Seq<char>) -> bool {
    0 < name.len() <= 64 && forall|i: int| 0 <= i < name.len() ==> is_token_char(#[trigger] name[i])
}

/// `c` with ASCII upper-case letters turned lower-case.
pub open spec fn ascii_lower(c: char) -> char {
    if 'A' <= c && c <= 'Z' {
        ((c as u8) + 32) as char
    } else {
        c
    }
}

/// The contents of a map that holds no header.
pub open spec fn no_headers() -> Map<Seq<char>, Seq<u8>> {
    Map::empty()
}

/// `HeaderMap::with_capacity`: an empty map.
#[verifier::external_body]
fn header_map_with_capacity(capacity: usize) -> (m: HeaderMap)
    requires
        capacity <= 1024,
    ensures
        header_entries(m) == no_headers(),
{
    HeaderMap::with_capacity(capacity)
}

/// `HeaderValue::from_str`: succeeds exactly when every byte of `text` may
/// stand in a header value, and then holds those bytes.
#[verifier::external_body]
fn header_value_from_str(text: &str) -> (r: Option<HeaderValue>)
    ensures
        r is Some <==> is_header_value_text(text@),
        r matches Some(v) ==> header_value_bytes(v) == encode_utf8(text@),
{
    HeaderValue::from_str(text).ok()
}

/// `HeaderMap::insert` with a `&'static str` name: the name is lower-cased,
/// and the value replaces whatever the map held under it.
#[verifier::external_body]
fn header_map_insert(m: &mut HeaderMap, name: &'static str, value: HeaderValue)
    requires
        is_header_name_text(name@),
        header_entries(*old(m)).dom().finite(),
        header_entries(*old(m)).dom().len() < 1024,
    ensures
        header_entries(*final(m)) == header_entries(*old(m)).insert(name@.map_values(|c: char| ascii_lower(c)), header_value_bytes(value)),
{
    m.insert(name, value);
}

/// `name -> text` added to `m` when `text` may stand in a header value;
/// otherwise `m` unchanged.
pub open spec fn with_header(m: Map<Seq<char>, Seq<u8>>, name: Seq<char>, text: Seq<char>) -> Map<Seq<char>, Seq<u8>> {
    if is_header_value_text(text) {
        m.insert(name, encode_utf8(text))
    } else {
        m
    }
}

/// The standard request headers: `accept: application/json`, the bearer
/// `authorization` and the `user-agent` on every request (each only when its
/// text may stand in a header); for `POST` also `content-type:
/// application/json` and, when one is given and valid, the
/// `idempotency-key`.
pub open spec fn standard_headers(
    method: HttpMethod,
    api_key: Seq<char>,
    idempotency_key: Option<Seq<char>>,
    user_agent: Seq<char>,
) -> Map<Seq<char>, Seq<u8>> {
    let base = with_header(
        with_header(
            Map::empty().insert("accept"@, encode_utf8("application/json"@)),
            "authorization"@,
            "Bearer "@ + api_key,
        ),
        "user-agent"@,
        user_agent,
    );
    if method == HttpMethod::Post {
        let with_type = base.insert("content-type"@, encode_utf8("application/json"@));
        match idempotency_key {
            Some(k) => with_header(with_type, "idempotency-key"@, k),
            None => with_type,
        }
    } else {
        base
    }
}

proof fn lemma_lowered_names()
    ensures
        "accept"@.map_values(|c: char| ascii_lower(c)) == "accept"@,
        "authorization"@.map_values(|c: char| ascii_lower(c)) == "authorization"@,
        "user-agent"@.map_values(|c: char| ascii_lower(c)) == "user-agent"@,
        "content-type"@.map_values(|c: char| ascii_lower(c)) == "content-type"@,
        "Idempotency-Key"@.map_values(|c: char| ascii_lower(c)) == "idempotency-key"@,
        is_header_name_text("accept"@),
        is_header_name_text("authorization"@),
        is_header_name_text("user-agent"@),
        is_header_name_text("content-type"@),
        is_header_name_text("Idempotency-Key"@),
{
    reveal_strlit("accept");
    reveal_strlit("authorization");
    reveal_strlit("user-agent");
    reveal_strlit("content-type");
    reveal_strlit("Idempotency-Key");
    reveal_strlit("idempotency-key");
    assert("accept"@.map_values(|c: char| ascii_lower(c)) =~= "accept"@);
    assert("authorization"@.map_values(|c: char| ascii_lower(c)) =~= "authorization"@);
    assert("user-agent"@.map_values(|c: char| ascii_lower(c)) =~= "user-agent"@);
    assert("content-type"@.map_values(|c: char| ascii_lower(c)) =~= "content-type"@);
    assert("Idempotency-Key"@.map_values(|c: char| ascii_lower(c)) =~= "idempotency-key"@);
}

proof fn lemma_json_media_type_is_header_text()
    ensures
        is_header_value_text("application/json"@),
{
    reveal_strlit("application/json");
    broadcast use is_ascii_chars_encode_utf8;
    assert(is_ascii_chars("application/json"@));
    let t = "application/json"@;
    assert forall|i: int| 0 <= i < encode_utf8(t).len() implies is_header_value_byte(#[trigger] encode_utf8(t)[i]) by {
        assert(t[i] as u8 == encode_utf8(t)[i]);
    }
}

/// Insert `name -> text` when `text` may stand in a header value.
fn insert_if_valid(m: &mut HeaderMap, name: &'static str, text: &str)
    requires
        is_header_name_text(name@),
        header_entries(*old(m)).dom().finite(),
        header_entries(*old(m)).dom().len() < 1000,
    ensures
        header_entries(*final(m)) == with_header(header_entries(*old(m)), name@.map_values(|c: char| ascii_lower(c)), text@),
        header_entries(*final(m)).dom().finite(),
        header_entries(*final(m)).dom().len() <= header_entries(*old(m)).dom().len() + 1,
{
    if let Some(v) = header_value_from_str(text) {
        header_map_insert(m, name, v);
    }
}

/// What the standard headers hold, for every method: `accept:
/// application/json`; `authorization: Bearer {api_key}` and the
/// `user-agent` exactly when their text may stand in a header value;
/// `content-type: application/json` exactly for `POST`; and the
/// `idempotency-key` exactly for a `POST` given a key that may stand in a
/// header value.
pub proof fn lemma_standard_headers_contents(
    method: HttpMethod,
    api_key: Seq<char>,
    idempotency_key: Option<Seq<char>>,
    user_agent: Seq<char>,
)
    ensures
        ({
            let h = standard_headers(method, api_key, idempotency_key, user_agent);
            &&& h.dom().contains("accept"@) && h["accept"@] == encode_utf8("application/json"@)
            &&& h.dom().contains("authorization"@) == is_header_value_text("Bearer "@ + api_key)
            &&& is_header_value_text("Bearer "@ + api_key) ==> h["authorization"@] == encode_utf8("Bearer "@ + api_key)
            &&& h.dom().contains("user-agent"@) == is_header_value_text(user_agent)
            &&& is_header_value_text(user_agent) ==> h["user-agent"@] == encode_utf8(user_agent)
            &&& h.dom().contains("content-type"@) == (method == HttpMethod::Post)
            &&& method == HttpMethod::Post ==> h["content-type"@] == encode_utf8("application/json"@)
            &&& h.dom().contains("idempotency-key"@) == (method == HttpMethod::Post && idempotency_key is Some
                && is_header_value_text(idempotency_key->0))
            &&& h.dom().contains("idempotency-key"@) ==> h["idempotency-key"@] == encode_utf8(idempotency_key->0)
        }),
{
    reveal_strlit("accept");
    reveal_strlit("authorization");
    reveal_strlit("user-agent");
    reveal_strlit("content-type");
    reveal_strlit("idempotency-key");
    assert("accept"@.len() != "authorization"@.len());
    assert("accept"@[0] != "user-agent"@[0]);
    assert("accept"@[0] != "content-type"@[0]);
    assert("accept"@[0] != "idempotency-key"@[0]);
    assert("authorization"@[0] != "user-agent"@[0]);
    assert("authorization"@[0] != "content-type"@[0]);
    assert("authorization"@[0] != "idempotency-key"@[0]);
    assert("user-agent"@[0] != "content-type"@[0]);
    assert("user-agent"@[0] != "idempotency-key"@[0]);
    assert("content-type"@[0] != "idempotency-key"@[0]);
}

/// Build the standard request headers. `POST` requests get `content-type:
/// application/json` and an `idempotency-key` when one is supplied; `GET`
/// and `DELETE` skip both. `accept`, `authorization` (`Bearer {api_key}`) and
/// `user-agent` are set on every request. A header whose text cannot stand
/// in a header value is left out rather than failing the request.
pub fn build_headers(
    method: &HttpMethod,
    api_key: &str,
    idempotency_key: Option<&str>,
    user_agent: &str,
) -> (h: HeaderMap)
    ensures
        header_entries(h) == standard_headers(*method, api_key@, match idempotency_key {
            Some(k) => Some(k@),
            None => None,
        }, user_agent@),
        header_entries(h).dom().contains("accept"@),
        header_entries(h)["accept"@] == encode_utf8("application/json"@),
        header_entries(h).dom().contains("authorization"@) == is_header_value_text("Bearer "@ + api_key@),
        is_header_value_text("Bearer "@ + api_key@) ==> header_entries(h)["authorization"@] == encode_utf8("Bearer "@ + api_key@),
        header_entries(h).dom().contains("user-agent"@) == is_header_value_text(user_agent@),
        is_header_value_text(user_agent@) ==> header_entries(h)["user-agent"@] == encode_utf8(user_agent@),
        header_entries(h).dom().contains("content-type"@) == (*method == HttpMethod::Post),
        *method == HttpMethod::Post ==> header_entries(h)["content-type"@] == encode_utf8("application/json"@),
        header_entries(h).dom().contains("idempotency-key"@) == (*method == HttpMethod::Post
            && idempotency_key is Some && is_header_value_text(idempotency_key->0@)),
        header_entries(h).dom().contains("idempotency-key"@) ==> header_entries(h)["idempotency-key"@] == encode_utf8(idempotency_key->0@),
{
    proof {
        lemma_standard_headers_contents(*method, api_key@, match idempotency_key {
            Some(k) => Some(k@),
            None => None,
        }, user_agent@);
        lemma_lowered_names();
        lemma_json_media_type_is_header_text();
    }
    let mut h = header_map_with_capacity(5);
    insert_if_valid(&mut h, "accept", "application/json");
    let mut bearer = "Bearer ".to_owned();
    bearer.append(api_key);
    insert_if_valid(&mut h, "authorization", bearer.as_str());
    insert_if_valid(&mut h, "user-agent", user_agent);
    if *method == HttpMethod::Post {
        insert_if_valid(&mut h, "content-type", "application/json");
        if let Some(key) = idempotency_key {
            insert_if_valid(&mut h, "Idempotency-Key", key);
        }
    }
    h
}

/// Only `POST` requests carry a body's headers: every request gets
/// `accept: application/json`; `POST` also gets `content-type:
/// application/json`, and an `idempotency-key` only when one is supplied;
/// `GET` and `DELETE` get neither.
pub proof fn lemma_only_post_carries_body_headers(
    method: HttpMethod,
    api_key: Seq<char>,
    idempotency_key: Option<Seq<char>>,
    user_agent: Seq<char>,
)
    ensures
        ({
            let h = standard_headers(method, api_key, idempotency_key, user_agent);
            &&& h.dom().contains("accept"@) && h["accept"@] == encode_utf8("application/json"@)
            &&& method == HttpMethod::Post ==> h.dom().contains("content-type"@) && h["content-type"@] == encode_utf8("application/json"@)
            &&& method != HttpMethod::Post ==> !h.dom().contains("content-type"@) && !h.dom().contains("idempotency-key"@)
            &&& idempotency_key is None ==> !h.dom().contains("idempotency-key"@)
        }),
{
    reveal_strlit("accept");
    reveal_strlit("authorization");
    reveal_strlit("user-agent");
    reveal_strlit("content-type");
    reveal_strlit("idempotency-key");
    assert("accept"@.len() != "authorization"@.len());
    assert("accept"@[0] != "user-agent"@[0]);
    assert("accept"@ != "content-type"@);
    assert("content-type"@[0] != "idempotency-key"@[0]);
    assert("content-type"@[0] != "authorization"@[0]);
    assert("content-type"@[0] != "user-agent"@[0]);
    assert("idempotency-key"@[0] != "authorization"@[0]);
    assert("idempotency-key"@[0] != "user-agent"@[0]);
    assert("accept"@[0] != "idempotency-key"@[0]);
}

} // verus!
