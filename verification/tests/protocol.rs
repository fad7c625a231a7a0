use media_ingest::hashing::hash_id;
use media_ingest::upload::{
    upload_after_post, upload_after_put, upload_media, upload_request, HttpResponse, UploadError,
    UploadResult,
};

fn resp(status: u16, body: &str) -> HttpResponse {
    HttpResponse {
        status,
        body: String::from(body),
    }
}

#[test]
fn hash_id_is_deterministic() {
    let a = hash_id(b"some file content");
    let b = hash_id(b"some file content");
    assert_eq!(a, b);
}

#[test]
fn hash_id_distinguishes_contents() {
    assert_ne!(hash_id(b"abc"), hash_id(b"abd"));
    assert_ne!(hash_id(b""), hash_id(b"a"));
}

#[test]
fn hash_id_is_32_lowercase_hex_chars() {
    let id = hash_id(b"whatever");
    assert_eq!(id.len(), 32);
    assert!(id.chars().all(|c| c.is_ascii_hexdigit() && !c.is_ascii_uppercase()));
}

#[test]
fn hash_id_matches_the_xxh3_128_digest() {
    let data = b"cross-check against the hasher";
    let expect = format!("{:032x}", xxhash_rust::xxh3::xxh3_128(data));
    assert_eq!(hash_id(data), expect);
}

#[test]
fn upload_request_names_the_content_id() {
    let r = upload_request("http://server/", b"X");
    let id = hash_id(b"X");
    assert_eq!(r.id, id);
    assert_eq!(r.url, "http://server/api/media/upload-url");
    assert_eq!(r.body, format!("{{\"filename\":\"{}\"}}", id));
}

#[test]
fn put_201_is_uploaded() {
    let r = upload_media(
        "http://s",
        b"X",
        &resp(200, "{\"url\":\"/media/upload/abc\"}"),
        resp(201, ""),
    );
    match r {
        Ok(UploadResult::Uploaded(id)) => assert_eq!(id, hash_id(b"X")),
        other => panic!("expected Uploaded, got {:?}", other),
    }
}

#[test]
fn put_412_is_duplicate_with_same_id() {
    let first = upload_media(
        "http://s",
        b"X",
        &resp(200, "{\"url\":\"/media/upload/abc\"}"),
        resp(201, ""),
    );
    let second = upload_media(
        "http://s",
        b"X",
        &resp(200, "{\"url\":\"/media/upload/abc\"}"),
        resp(412, ""),
    );
    let uploaded_id = match first {
        Ok(UploadResult::Uploaded(id)) => id,
        other => panic!("expected Uploaded, got {:?}", other),
    };
    match second {
        Ok(UploadResult::Duplicate(id)) => assert_eq!(id, uploaded_id),
        other => panic!("expected Duplicate, got {:?}", other),
    }
}

#[test]
fn failed_slot_request_reports_status() {
    let r = upload_media("http://s", b"X", &resp(503, ""), resp(201, ""));
    assert!(matches!(
        r,
        Err(UploadError::UploadUrlRequestFailed(503))
    ));
}

#[test]
fn slot_answer_without_url_field_is_malformed() {
    let r = upload_media("http://s", b"X", &resp(200, "{\"link\":\"/x\"}"), resp(201, ""));
    assert!(matches!(r, Err(UploadError::MalformedUploadUrlResponse)));
    let r2 = upload_media("http://s", b"X", &resp(200, "not json"), resp(201, ""));
    assert!(matches!(r2, Err(UploadError::MalformedUploadUrlResponse)));
}

#[test]
fn unexpected_put_status_fails_with_body() {
    let r = upload_media(
        "http://s",
        b"X",
        &resp(200, "{\"url\":\"/x\"}"),
        resp(403, "forbidden"),
    );
    match r {
        Err(UploadError::UploadFailed(status, body)) => {
            assert_eq!(status, 403);
            assert_eq!(body, "forbidden");
        }
        other => panic!("expected UploadFailed, got {:?}", other),
    }
}

#[test]
fn relative_upload_url_resolves_against_server() {
    let plan = upload_after_post("http://s/", &resp(200, "{\"url\":\"/media/upload/k\"}"), "image/png")
        .expect("plan");
    assert_eq!(plan.url, "http://s/media/upload/k");
    assert_eq!(plan.content_type, "image/png");
}

#[test]
fn absolute_upload_url_stands() {
    let plan = upload_after_post(
        "http://s",
        &resp(200, "{\"url\":\"http://cdn/media/upload/k\"}"),
        "video/mp4",
    )
    .expect("plan");
    assert_eq!(plan.url, "http://cdn/media/upload/k");
}

#[test]
fn put_204_and_200_are_uploaded_too() {
    for status in [200u16, 204u16] {
        let r = upload_after_put(String::from("id"), resp(status, ""));
        assert!(matches!(r, Ok(UploadResult::Uploaded(_))));
    }
}
