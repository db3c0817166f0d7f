use corpo::proxy::content;
use corpo::proxy::gallery;

#[test]
fn missing_slug_is_not_found() {
    let r = content::classify_writing_response(404, Vec::new());
    assert_eq!(r, Err(content::GetItemsError::WritingNotFound));
    assert_eq!(content::GetItemsError::WritingNotFound.http_status(), 404);
    assert_eq!(content::GetItemsError::WritingNotFound.message(), "Writing not found");
}

#[test]
fn real_slug_body_passes_through_byte_for_byte() {
    let body = b"<p>exact bytes</p>".to_vec();
    let r = content::classify_writing_response(200, body.clone());
    assert_eq!(r, Ok(body));
}

#[test]
fn upstream_failure_is_not_swallowed() {
    let r = content::classify_writing_response(500, b"oops".to_vec());
    assert_eq!(r, Err(content::GetItemsError::RequestFailed));
    assert_eq!(content::GetItemsError::RequestFailed.http_status(), 500);
    let r = content::classify_writing_response(302, Vec::new());
    assert_eq!(r, Err(content::GetItemsError::RequestFailed));
}

#[test]
fn writing_path_and_type() {
    assert_eq!(content::writing_request_path("my-post"), "/writing/my-post?html=true");
    assert_eq!(content::writing_content_type(), "text/html; charset=utf-8");
}

#[test]
fn writing_error_messages_match_statuses() {
    let internal = [
        content::GetItemsError::UrlJoinError,
        content::GetItemsError::RequestFailed,
        content::GetItemsError::ResponseReadError,
        content::GetItemsError::ResponseBuildError,
    ];
    for e in internal {
        assert_eq!(e.http_status(), 500);
    }
    assert_eq!(content::GetItemsError::UrlJoinError.message(), "Internal server error");
    assert_eq!(content::GetItemsError::RequestFailed.message(), "Failed to fetch writing");
    assert_eq!(content::GetItemsError::ResponseReadError.message(), "Failed to read response");
    assert_eq!(content::GetItemsError::ResponseBuildError.message(), "Failed to build response");
}

#[test]
fn missing_visual_is_not_found() {
    let r = gallery::classify_visual_response(404, Vec::new());
    assert_eq!(r, Err(gallery::GetItemsError::WritingNotFound));
    assert_eq!(gallery::GetItemsError::WritingNotFound.http_status(), 404);
}

#[test]
fn visual_bytes_pass_through_verbatim() {
    let body = vec![0xffu8, 0xd8, 0xff, 0xe0];
    let r = gallery::classify_visual_response(200, body.clone());
    assert_eq!(r, Ok(body));
}

#[test]
fn visual_upstream_failure_maps_to_request_failed() {
    let r = gallery::classify_visual_response(503, Vec::new());
    assert_eq!(r, Err(gallery::GetItemsError::RequestFailed));
}

#[test]
fn visual_path_and_type() {
    assert_eq!(gallery::visual_request_path("sunset"), "/visual/sunset");
    assert_eq!(gallery::visual_content_type(), "image/jpeg");
}
