use potatohead::error::TypeError;
use potatohead::media::{
    get_audio_media_types, get_document_media_types, get_image_media_types, infer_mime_from_extension, MediaKind,
    MediaRef, MediaSource,
};

#[test]
fn from_bytes_eager_encodes() {
    let m = MediaRef::from_bytes(MediaKind::Image, "image/png".into(), b"hello");
    match m.source {
        MediaSource::Base64 { data, mime_type } => {
            assert_eq!(data, "aGVsbG8=");
            assert_eq!(mime_type, "image/png");
        },
        _ => panic!("expected base64 source"),
    }
}

#[test]
fn url_source_carries_optional_mime() {
    let m = MediaRef::new_url(MediaKind::Image, "gs://b/c.png".into(), Some("image/png".into()));
    match m.source {
        MediaSource::Url { url, mime_type } => {
            assert_eq!(url, "gs://b/c.png");
            assert_eq!(mime_type.as_deref(), Some("image/png"));
        },
        _ => panic!(),
    }
}

#[test]
fn image_path_infers_mime_from_extension() {
    let m = MediaRef::from_file(MediaKind::Image, Some("png"), b"FAKEPNG").unwrap();
    match &m.source {
        MediaSource::Base64 { mime_type, .. } => assert_eq!(mime_type, "image/png"),
        _ => panic!(),
    }
}

#[test]
fn image_path_unknown_extension_errors() {
    assert!(matches!(MediaRef::from_file(MediaKind::Image, Some("xyz"), b"X"), Err(TypeError::InvalidMediaType(_))));
}

#[test]
fn extension_case_is_ignored() {
    assert_eq!(infer_mime_from_extension(Some("JPEG")).unwrap(), "image/jpeg");
    assert_eq!(infer_mime_from_extension(Some("Pdf")).unwrap(), "application/pdf");
    assert_eq!(infer_mime_from_extension(Some("txt")).unwrap(), "text/plain");
}

#[test]
fn extension_errors_name_the_problem() {
    assert_eq!(
        infer_mime_from_extension(Some("XYZ")),
        Err(TypeError::InvalidMediaType("unrecognized extension: xyz".to_string()))
    );
    assert_eq!(
        infer_mime_from_extension(None),
        Err(TypeError::InvalidMediaType("path has no extension; pass mime_type explicitly via image_bytes".to_string()))
    );
}

#[test]
fn base64_of_several_lengths() {
    let enc = |b: &[u8]| match MediaRef::document_bytes("application/pdf".into(), b).source {
        MediaSource::Base64 { data, .. } => data,
        _ => panic!(),
    };
    assert_eq!(enc(b""), "");
    assert_eq!(enc(b"f"), "Zg==");
    assert_eq!(enc(b"fo"), "Zm8=");
    assert_eq!(enc(b"foo"), "Zm9v");
}

#[test]
fn media_type_lists() {
    assert!(get_image_media_types().contains(&"image/png"));
    assert!(get_document_media_types().contains(&"application/pdf"));
    assert_eq!(get_audio_media_types(), vec!["audio/mpeg", "audio/wav"]);
    assert_eq!(get_image_media_types().len(), 4);
    assert_eq!(get_document_media_types().len(), 8);
}
