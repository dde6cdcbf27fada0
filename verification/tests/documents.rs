use poli_page::documents::{
    document_path, document_preview_path, document_preview_result, document_thumbnails_path,
    download_status_error, download_transport_error, page_count_from_header,
};
use poli_page::Error;

#[test]
fn document_paths_encode_the_id() {
    assert_eq!(document_path("doc_abc123"), "/v1/documents/doc_abc123");
    assert_eq!(
        document_path("doc/with/slashes"),
        "/v1/documents/doc%2Fwith%2Fslashes"
    );
    assert_eq!(
        document_preview_path("doc/with/slashes"),
        "/v1/documents/doc%2Fwith%2Fslashes/preview"
    );
    assert_eq!(
        document_thumbnails_path("doc_abc123"),
        "/v1/documents/doc_abc123/thumbnails"
    );
}

#[test]
fn page_count_defaults_to_zero() {
    assert_eq!(page_count_from_header(Some("3")), 3);
    assert_eq!(page_count_from_header(Some("+4")), 4);
    assert_eq!(page_count_from_header(None), 0);
    assert_eq!(page_count_from_header(Some("not-a-number")), 0);
    assert_eq!(page_count_from_header(Some("-1")), 0);
    assert_eq!(page_count_from_header(Some("4294967296")), 0);
}

#[test]
fn preview_result_assembles_html_and_page_count() {
    let r = document_preview_result(b"<p>x</p>".to_vec(), 200, Some("2")).unwrap();
    assert_eq!(r.html, "<p>x</p>");
    assert_eq!(r.page_count, 2);
    let err = document_preview_result(vec![0x66, 0xff, 0x66], 200, Some("2")).unwrap_err();
    match err {
        Error::Internal { message, status } => {
            assert_eq!(status, Some(200));
            assert_eq!(
                message,
                "documents.preview body was not valid UTF-8: invalid utf-8 sequence of 1 bytes from index 1"
            );
        }
        other => panic!("unexpected {other:?}"),
    }
}

#[test]
fn download_errors_carry_status_and_reason() {
    let e = download_status_error(404);
    assert_eq!(e.code(), "DOWNLOAD_FAILED");
    assert_eq!(e.status(), Some(404));
    assert_eq!(e.to_string(), "download failed: Failed to download PDF: 404 Not Found");
    let unknown = download_status_error(599);
    assert_eq!(
        unknown.to_string(),
        "download failed: Failed to download PDF: 599"
    );
    let t = download_transport_error("connection reset".into(), None, Some(502));
    assert_eq!(t.status(), Some(502));
    let u = download_transport_error("body read".into(), Some(200), Some(502));
    assert_eq!(u.status(), Some(200));
    match u {
        Error::Download { message, source, .. } => {
            assert_eq!(message, "body read");
            assert_eq!(source.as_deref(), Some("body read"));
        }
        other => panic!("unexpected {other:?}"),
    }
}
