//! The document endpoints' request paths and response assembly, and the
//! errors of the presigned-URL download.

use vstd::prelude::*;
use vstd::string::*;
use vstd::utf8::*;

use crate::error::Error;
use crate::path_encoding::{encode_bytes, encode_path_segment};
use crate::text::{decimal, parse_u32, parsed_integer, push_decimal};
use crate::types::DocumentPreviewResult;

verus! {

/// `/v1/documents/{id}` with `id` percent-encoded as one path segment.
pub open spec fn document_path_text(id: &str) -> Seq<char> {
    "/v1/documents/"@ + encode_bytes(id.spec_bytes())
}

/// Path of a stored document: `/v1/documents/{id}`, the id percent-encoded.
pub fn document_path(id: &str) -> (p: String)
    ensures
        p@ == document_path_text(id),
{
    let mut p = "/v1/documents/".to_owned();
    let seg = encode_path_segment(id);
    p.append(seg.as_str());
    p
}

/// Path of a stored document's preview: `/v1/documents/{id}/preview`.
pub fn document_preview_path(id: &str) -> (p: String)
    ensures
        p@ == document_path_text(id) + "/preview"@,
{
    let mut p = document_path(id);
    p.append("/preview");
    p
}

/// Path of a stored document's thumbnails: `/v1/documents/{id}/thumbnails`.
pub fn document_thumbnails_path(id: &str) -> (p: String)
    ensures
        p@ == document_path_text(id) + "/thumbnails"@,
{
    let mut p = document_path(id);
    p.append("/thumbnails");
    p
}

/// The page count a preview reports for its page-count header: the header
/// read as a `u32`, or `0` when it is missing or not a number.
pub open spec fn page_count_value(header: Option<Seq<char>>) -> nat {
    match header {
        Some(h) => match parsed_integer(h, false, 0, u32::MAX as int) {
            Some(v) => v as nat,
            None => 0,
        },
        None => 0,
    }
}

/// Read the `X-Document-Page-Count` header: its value as a `u32`, or `0`
/// when it is absent or unparseable.
pub fn page_count_from_header(header: Option<&str>) -> (n: u32)
    ensures
        n == page_count_value(match header {
            Some(h) => Some(h@),
            None => None,
        }),
{
    match header {
        Some(h) => match parse_u32(h) {
            Some(v) => v,
            None => 0,
        },
        None => 0,
    }
}

/// Description (`Display`) of std's UTF-8 decoding error for `bytes`.
pub uninterp spec fn utf8_error_text(bytes: Seq<u8>) -> Seq<char>;

/// `String::from_utf8`: the decoded text when `bytes` is valid UTF-8,
/// otherwise the description of the decoding error.
#[verifier::external_body]
fn string_from_utf8(bytes: Vec<u8>) -> (r: Result<String, String>)
    ensures
        r is Ok <==> valid_utf8(bytes@),
        r matches Ok(s) ==> s@ == decode_utf8(bytes@),
        r matches Err(e) ==> e@ == utf8_error_text(bytes@),
{
    match String::from_utf8(bytes) {
        Ok(s) => Ok(s),
        Err(e) => Err(e.to_string()),
    }
}

/// Assemble a document preview from the `text/html` response body, its
/// status, and the page-count header. A body that is not UTF-8 is an
/// `Internal` error carrying the status.
pub fn document_preview_result(body: Vec<u8>, status: u16, page_count_header: Option<&str>) -> (r: Result<DocumentPreviewResult, Error>)
    ensures
        valid_utf8(body@) ==> (r matches Ok(p) && p.html@ == decode_utf8(body@)
            && p.page_count == page_count_value(match page_count_header {
                Some(h) => Some(h@),
                None => None,
            })),
        !valid_utf8(body@) ==> (r matches Err(Error::Internal { message, status: st })
            && message@ == "documents.preview body was not valid UTF-8: "@ + utf8_error_text(body@)
            && st == Some(status)),
{
    let ghost bytes = body@;
    match string_from_utf8(body) {
        Ok(html) => {
            let page_count = page_count_from_header(page_count_header);
            Ok(DocumentPreviewResult { html, page_count })
        },
        Err(why) => {
            let mut message = "documents.preview body was not valid UTF-8: ".to_owned();
            message.append(why.as_str());
            Err(Error::Internal { message, status: Some(status) })
        },
    }
}

/// Whether `c` is white space in Unicode's sense (what `char::is_whitespace`
/// tests).
pub open spec fn is_unicode_whitespace(c: char) -> bool {
    ||| ('\t' <= c && c <= '\r')
    ||| c == ' ' || c == '\u{85}' || c == '\u{A0}' || c == '\u{1680}'
    ||| ('\u{2000}' <= c && c <= '\u{200A}')
    ||| c == '\u{2028}' || c == '\u{2029}' || c == '\u{202F}' || c == '\u{205F}' || c == '\u{3000}'
}

/// `s` without its trailing white space (`str::trim_end`).
pub open spec fn trim_end_whitespace(s: Seq<char>) -> Seq<char>
    decreases s.len(),
{
    if s.len() > 0 && is_unicode_whitespace(s.last()) {
        trim_end_whitespace(s.drop_last())
    } else {
        s
    }
}

fn is_whitespace_char(c: char) -> (r: bool)
    ensures
        r == is_unicode_whitespace(c),
{
    ('\t' <= c && c <= '\r') || c == ' ' || c == '\u{85}' || c == '\u{A0}' || c == '\u{1680}'
        || ('\u{2000}' <= c && c <= '\u{200A}') || c == '\u{2028}' || c == '\u{2029}'
        || c == '\u{202F}' || c == '\u{205F}' || c == '\u{3000}'
}

/// `s` without its trailing white space.
fn trim_end(s: &str) -> (r: String)
    ensures
        r@ == trim_end_whitespace(s@),
{
    let n = s.unicode_len();
    let mut end = n;
    assert(s@.subrange(0, n as int) == s@);
    while end > 0 && is_whitespace_char(s.get_char(end - 1))
        invariant
            end <= n,
            n == s@.len(),
            trim_end_whitespace(s@.subrange(0, end as int)) == trim_end_whitespace(s@),
        decreases end,
    {
        assert(s@.subrange(0, end as int).drop_last() == s@.subrange(0, end - 1));
        end = end - 1;
    }
    proof {
        let t = s@.subrange(0, end as int);
        if t.len() > 0 {
            assert(t.last() == s@[end - 1]);
        }
    }
    s.substring_char(0, end).to_owned()
}

/// The standard reason phrase `http::StatusCode::canonical_reason` gives for
/// a status (e.g. `Not Found` for 404), when it knows one.
pub uninterp spec fn canonical_reason_text(status: u16) -> Option<Seq<char>>;

/// `http::StatusCode::canonical_reason` for `status` (`None` also for a
/// number that is not a status code).
#[verifier::external_body]
fn canonical_reason(status: u16) -> (r: Option<&'static str>)
    ensures
        match r {
            Some(s) => canonical_reason_text(status) == Some(s@),
            None => canonical_reason_text(status) is None,
        },
{
    match http::StatusCode::from_u16(status) {
        Ok(code) => code.canonical_reason(),
        Err(_) => None,
    }
}

/// The message of a download refused with `status`:
/// `Failed to download PDF: {status} {reason}`, trailing white space removed.
pub open spec fn download_failure_message(status: u16) -> Seq<char> {
    trim_end_whitespace(
        "Failed to download PDF: "@ + decimal(status as nat) + " "@ + match canonical_reason_text(status) {
            Some(r) => r,
            None => Seq::empty(),
        },
    )
}

/// The error for a presigned-URL download answered with a non-2xx `status`:
/// `Download` with the status and the message `Failed to download PDF:
/// {status} {reason}`.
pub fn download_status_error(status: u16) -> (e: Error)
    ensures
        e matches Error::Download { message, status: st, source } && message@ == download_failure_message(status)
            && st == Some(status) && source is None,
{
    let mut text = "Failed to download PDF: ".to_owned();
    push_decimal(&mut text, status as u64);
    text.append(" ");
    match canonical_reason(status) {
        Some(reason) => text.append(reason),
        None => {
            proof {
                assert(text@ + Seq::<char>::empty() == text@);
            }
        },
    }
    let message = trim_end(text.as_str());
    Error::Download { message, status: Some(status), source: None }
}

/// The error for a presigned-URL download that failed in transport: the
/// transport error's description as message and source; the status is the
/// response's when one was received, else the one the transport error
/// carries.
pub fn download_transport_error(description: String, response_status: Option<u16>, error_status: Option<u16>) -> (e: Error)
    ensures
        e matches Error::Download { message, status, source } && message@ == description@
            && status == (if response_status is Some { response_status } else { error_status })
            && (source matches Some(s) && s@ == description@),
{
    let status = match response_status {
        Some(s) => Some(s),
        None => error_status,
    };
    let source = description.clone();
    Error::Download { message: description, status, source: Some(source) }
}

} // verus!
