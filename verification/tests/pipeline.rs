//! One file's ingestion chain run end to end on recorded outcomes: the
//! create event's path is classified, the bytes read under the retry
//! policy, hashed, uploaded in two phases, and the finalization planned —
//! exactly one slot POST, one PUT of the content, and one tags POST.

use media_ingest::finalize::apply_tags_and_date;
use media_ingest::media::{get_file_mime_type, is_media_file};
use media_ingest::polling::{wait_for_media_indexing, PollOutcome};
use media_ingest::reading::{retry_read_file, ReadAttempt};
use media_ingest::settings::{AutoTagRule, Settings};
use media_ingest::upload::{upload_after_post, upload_after_put, upload_request, HttpResponse, UploadResult};

#[test]
fn created_file_is_ingested_once_and_tagged() {
    let settings = Settings {
        folder: String::from("/watch"),
        server: String::from("http://server/"),
        auto_tags: vec![AutoTagRule {
            folder: String::from("cats"),
            tags: String::from("animal cute"),
        }],
        override_upload_date: false,
    };
    let path = "/watch/cats/photo.png";
    let content = b"X".to_vec();

    // the create event names a media file
    assert!(is_media_file(path, true));
    let content_type = get_file_mime_type(path, true).expect("mime");
    assert_eq!(content_type, "image/png");

    // the reader hands back the content on the first attempt
    let attempts = vec![
        ReadAttempt::Data(content.clone()),
        ReadAttempt::Locked,
        ReadAttempt::Locked,
    ];
    let data = retry_read_file(&attempts, 3).expect("read");
    assert_eq!(data, content);

    // exactly one slot POST, naming the content id
    let req = upload_request(&settings.server, &data);
    assert_eq!(req.url, "http://server/api/media/upload-url");
    assert_eq!(req.body, format!("{{\"filename\":\"{}\"}}", req.id));

    // the server grants a relative slot; exactly one PUT of the bytes
    let post_answer = HttpResponse {
        status: 200,
        body: format!("{{\"url\":\"/media/upload/{}\"}}", req.id),
    };
    let plan = upload_after_post(&settings.server, &post_answer, &content_type).expect("plan");
    assert_eq!(plan.url, format!("http://server/media/upload/{}", req.id));
    assert_eq!(plan.content_type, "image/png");

    // the PUT is answered 201: freshly uploaded
    let outcome = upload_after_put(req.id.clone(), HttpResponse {
        status: 201,
        body: String::new(),
    })
    .expect("outcome");
    let id = match outcome {
        UploadResult::Uploaded(id) => id,
        UploadResult::Duplicate(id) => panic!("unexpected duplicate of {}", id),
    };

    // indexing turns queryable on the second poll
    let polls = vec![
        PollOutcome::Status(404),
        PollOutcome::Status(200),
        PollOutcome::Status(404),
    ];
    let indexed = wait_for_media_indexing(&polls, 3).is_ok();
    assert!(indexed);

    // exactly one tags POST reflecting the matching rule; no date POST
    let plan = apply_tags_and_date(
        &settings.server,
        path,
        &id,
        &settings.auto_tags,
        settings.override_upload_date,
        indexed,
        &None,
    );
    let tag_post = plan.tag_post.expect("tag post");
    assert_eq!(tag_post.url, format!("http://server/api/media/{}/tags", id));
    assert_eq!(tag_post.body, "{\"tags\":[\"animal\",\"cute\"]}");
    assert!(plan.date_post.is_none());
}

#[test]
fn duplicate_uploads_are_not_re_tagged() {
    // the watch loop finalizes only freshly uploaded content; a duplicate
    // keeps the tags of its original ingestion
    let outcome = upload_after_put(
        String::from("someid"),
        HttpResponse {
            status: 412,
            body: String::new(),
        },
    )
    .expect("outcome");
    assert!(matches!(outcome, UploadResult::Duplicate(_)));
}

#[test]
fn failed_indexing_skips_tags_and_date() {
    let rules = vec![AutoTagRule {
        folder: String::from("cats"),
        tags: String::from("animal"),
    }];
    let plan = apply_tags_and_date(
        "http://s",
        "/watch/cats/a.png",
        "id",
        &rules,
        true,
        false,
        &Some(String::from("2023-11-14T22:13:20Z")),
    );
    assert!(plan.tag_post.is_none());
    assert!(plan.date_post.is_none());
}

#[test]
fn override_upload_date_plans_a_date_post() {
    let rules: Vec<AutoTagRule> = Vec::new();
    let plan = apply_tags_and_date(
        "http://s",
        "/watch/plain/a.png",
        "abcd",
        &rules,
        true,
        true,
        &Some(String::from("2023-11-14T22:13:20Z")),
    );
    assert!(plan.tag_post.is_none());
    let date_post = plan.date_post.expect("date post");
    assert_eq!(date_post.url, "http://s/api/media/abcd/dates");
    assert_eq!(
        date_post.body,
        "{\"dates\":[{\"name\":\"upload\",\"value\":\"2023-11-14T22:13:20Z\"}]}"
    );
}
