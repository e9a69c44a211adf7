use line_notify::{
    FormPart, HttpResponse, LineNotify, NotifyError, api_url, basename, finish_send, to_multipart,
};

#[test]
fn api_url_is_the_fixed_endpoint() {
    assert_eq!(api_url(), "https://notify-api.line.me/api/notify");
}

#[test]
fn multipart_form_is_built_from_assembled_parts() {
    let n = LineNotify::new("token".to_string())
        .set_message("hello")
        .set_image_file("photos/pic.png");
    let parts = n.build_parts(Some(Ok(vec![1, 2, 3]))).unwrap();
    let form = to_multipart(&parts);
    assert!(!form.boundary().is_empty());
}

#[test]
fn empty_config_fails_with_missing_payload() {
    let n = LineNotify::new("token".to_string());
    assert_eq!(n.validate(), Err(NotifyError::MissingPayload));
    assert_eq!(n.build_parts(None), Err(NotifyError::MissingPayload));
}

#[test]
fn thumb_only_fails_with_inconsistent_pair() {
    let n = LineNotify::new("token".to_string())
        .set_message("hello")
        .set_image_thumb("https://example.com/t.png");
    assert_eq!(n.validate(), Err(NotifyError::InconsistentImagePair));
    assert_eq!(n.build_parts(None), Err(NotifyError::InconsistentImagePair));
}

#[test]
fn full_only_fails_with_inconsistent_pair() {
    let n = LineNotify::new("token".to_string()).set_image_full("https://example.com/f.png");
    assert_eq!(n.validate(), Err(NotifyError::InconsistentImagePair));
}

#[test]
fn asymmetric_pair_without_any_payload_still_reports_pair_error() {
    let n = LineNotify::new("token".to_string()).set_image_thumb("https://example.com/t.png");
    assert_eq!(n.validate(), Err(NotifyError::InconsistentImagePair));
}

#[test]
fn message_only_form_has_exactly_one_part() {
    let n = LineNotify::new("token".to_string()).set_message("hello there");
    let parts = n.build_parts(None).unwrap();
    assert_eq!(
        parts,
        vec![FormPart::Text { name: "message".to_string(), value: "hello there".to_string() }]
    );
}

#[test]
fn url_pair_without_message_is_valid() {
    let n = LineNotify::new("token".to_string())
        .set_image_thumb("https://example.com/t.png")
        .set_image_full("https://example.com/f.png");
    assert!(n.validate().is_ok());
    let parts = n.build_parts(None).unwrap();
    assert_eq!(
        parts,
        vec![
            FormPart::Text {
                name: "imageThumbnail".to_string(),
                value: "https://example.com/t.png".to_string()
            },
            FormPart::Text {
                name: "imageFullsize".to_string(),
                value: "https://example.com/f.png".to_string()
            },
        ]
    );
}

#[test]
fn file_only_is_valid() {
    let n = LineNotify::new("token".to_string()).set_image_file("img/photo.jpg");
    assert!(n.validate().is_ok());
}

#[test]
fn message_and_file_form_has_two_parts_with_exact_bytes() {
    let content: Vec<u8> = vec![0x89, 0x50, 0x4e, 0x47, 0x00, 0xff, 0x10];
    let n = LineNotify::new("token".to_string())
        .set_message("with image")
        .set_image_file("photos/pic.png");
    let parts = n.build_parts(Some(Ok(content.clone()))).unwrap();
    assert_eq!(parts.len(), 2);
    assert_eq!(
        parts[0],
        FormPart::Text { name: "message".to_string(), value: "with image".to_string() }
    );
    assert_eq!(
        parts[1],
        FormPart::File {
            name: "imageFile".to_string(),
            filename: "pic.png".to_string(),
            data: content
        }
    );
}

#[test]
fn full_config_assembles_all_four_parts_in_wire_order() {
    let n = LineNotify::new("token".to_string())
        .set_message("all fields")
        .set_image_thumb("https://example.com/t.png")
        .set_image_full("https://example.com/f.png")
        .set_image_file("pic.png");
    let parts = n.build_parts(Some(Ok(vec![1, 2, 3]))).unwrap();
    assert_eq!(parts.len(), 4);
    assert!(matches!(&parts[0], FormPart::Text { name, .. } if name == "message"));
    assert!(matches!(&parts[1], FormPart::Text { name, .. } if name == "imageThumbnail"));
    assert!(matches!(&parts[2], FormPart::Text { name, .. } if name == "imageFullsize"));
    assert!(matches!(&parts[3], FormPart::File { name, .. } if name == "imageFile"));
}

#[test]
fn failed_file_read_reports_file_read_error() {
    let n = LineNotify::new("token".to_string())
        .set_message("hello")
        .set_image_file("missing/file.png");
    let r = n.build_parts(Some(Err("no such file or directory".to_string())));
    assert_eq!(r, Err(NotifyError::FileReadError("no such file or directory".to_string())));
}

#[test]
fn validation_error_precedes_file_read_error() {
    let n = LineNotify::new("token".to_string())
        .set_image_thumb("https://example.com/t.png")
        .set_image_file("missing/file.png");
    let r = n.build_parts(Some(Err("no such file".to_string())));
    assert_eq!(r, Err(NotifyError::InconsistentImagePair));
}

#[test]
fn setters_overwrite_earlier_values() {
    let n = LineNotify::new("token".to_string()).set_message("first").set_message("second");
    let parts = n.build_parts(None).unwrap();
    assert_eq!(
        parts,
        vec![FormPart::Text { name: "message".to_string(), value: "second".to_string() }]
    );
}

#[test]
fn http_401_passes_through_as_success() {
    let resp = HttpResponse { status: 401, headers: Vec::new(), body: b"unauthorized".to_vec() };
    let r = finish_send(Ok(resp));
    match r {
        Ok(got) => {
            assert_eq!(got.status, 401);
            assert_eq!(got.body, b"unauthorized".to_vec());
        }
        Err(_) => panic!("a received response must pass through as a success"),
    }
}

#[test]
fn transport_failure_becomes_transport_error() {
    let r = finish_send(Err("connection refused".to_string()));
    assert_eq!(r, Err(NotifyError::TransportError("connection refused".to_string())));
}

#[test]
fn basename_takes_suffix_after_last_slash() {
    assert_eq!(basename("a/b/c.png"), "c.png");
    assert_eq!(basename("c.png"), "c.png");
    assert_eq!(basename("/c.png"), "c.png");
    assert_eq!(basename("dir/"), "");
    assert_eq!(basename(""), "");
}

#[test]
fn token_is_kept_as_given() {
    let n = LineNotify::new("secret-token".to_string());
    assert_eq!(n.token(), "secret-token");
}

#[test]
fn image_file_getter_reports_configured_path() {
    let n = LineNotify::new("token".to_string());
    assert!(n.image_file().is_none());
    let n = n.set_image_file("a/b.png");
    assert_eq!(n.image_file(), Some(&"a/b.png".to_string()));
}

#[test]
fn describe_names_each_error() {
    assert_eq!(
        NotifyError::MissingPayload.describe(),
        "no message or image payload is configured"
    );
    assert_eq!(
        NotifyError::InconsistentImagePair.describe(),
        "both image thumbnail and full-size URLs must be specified"
    );
    assert_eq!(NotifyError::FileReadError("cause a".to_string()).describe(), "cause a");
    assert_eq!(NotifyError::TransportError("cause b".to_string()).describe(), "cause b");
}
