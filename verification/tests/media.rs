use corpo::assets::is_traversal_free;
use corpo::media::content_type_for;

#[test]
fn svg_is_always_svg() {
    assert_eq!(content_type_for("/images/logo.svg"), "image/svg+xml");
    assert_eq!(content_type_for("logo.svg"), "image/svg+xml");
}

#[test]
fn css_maps_by_extension() {
    assert_eq!(content_type_for("/assets/app.css"), "text/css");
}

#[test]
fn html_maps_by_extension() {
    assert_eq!(content_type_for("/about.html"), "text/html");
}

#[test]
fn jpeg_maps_by_extension() {
    assert_eq!(content_type_for("/gallery/shot.jpg"), "image/jpeg");
}

#[test]
fn unknown_extension_falls_back_to_octet_stream() {
    assert_eq!(content_type_for("/data/blob.zzzyx"), "application/octet-stream");
}

#[test]
fn no_extension_falls_back_to_octet_stream() {
    assert_eq!(content_type_for("/about"), "application/octet-stream");
}

#[test]
fn parent_segments_are_rejected() {
    assert!(!is_traversal_free("/../etc/passwd"));
    assert!(!is_traversal_free(".."));
    assert!(!is_traversal_free("/assets/../../secret"));
    assert!(!is_traversal_free("/a/.."));
}

#[test]
fn ordinary_paths_are_traversal_free() {
    assert!(is_traversal_free(""));
    assert!(is_traversal_free("/assets/app.css"));
    assert!(is_traversal_free("/a..b/c"));
    assert!(is_traversal_free("/..hidden"));
    assert!(is_traversal_free("/a/.../b"));
}
