use media_ingest::finalize::{add_date, add_tags};
use media_ingest::json::{filename_body_exec, json_escape, tags_body_exec};
use media_ingest::timefmt::{epoch_to_utc, format_utc_timestamp, render_utc};
use media_ingest::urls::{resolve_upload_url, trim_trailing_slash};

#[test]
fn plain_text_passes_through_escaping() {
    assert_eq!(json_escape("animal cute"), "animal cute");
}

#[test]
fn quotes_and_backslashes_are_escaped() {
    assert_eq!(json_escape("a\"b"), "a\\\"b");
    assert_eq!(json_escape("a\\b"), "a\\\\b");
}

#[test]
fn control_characters_become_unicode_escapes() {
    assert_eq!(json_escape("a\nb"), "a\\u000ab");
    assert_eq!(json_escape("a\tb"), "a\\u0009b");
}

#[test]
fn filename_body_is_exact() {
    assert_eq!(filename_body_exec("00ff"), "{\"filename\":\"00ff\"}");
}

#[test]
fn tags_body_is_exact() {
    let tags = vec![String::from("animal"), String::from("cute")];
    assert_eq!(tags_body_exec(&tags), "{\"tags\":[\"animal\",\"cute\"]}");
    let one = vec![String::from("x")];
    assert_eq!(tags_body_exec(&one), "{\"tags\":[\"x\"]}");
    let none: Vec<String> = Vec::new();
    assert_eq!(tags_body_exec(&none), "{\"tags\":[]}");
}

#[test]
fn tag_request_targets_the_media_item() {
    let tags = vec![String::from("cat")];
    let post = add_tags("http://s/", "deadbeef", &tags);
    assert_eq!(post.url, "http://s/api/media/deadbeef/tags");
    assert_eq!(post.body, "{\"tags\":[\"cat\"]}");
}

#[test]
fn date_request_carries_name_and_value() {
    let post = add_date("http://s", "deadbeef", "upload", "2023-11-14T22:13:20Z");
    assert_eq!(post.url, "http://s/api/media/deadbeef/dates");
    assert_eq!(
        post.body,
        "{\"dates\":[{\"name\":\"upload\",\"value\":\"2023-11-14T22:13:20Z\"}]}"
    );
}

#[test]
fn trailing_slashes_are_trimmed() {
    assert_eq!(trim_trailing_slash("http://s///"), "http://s");
    assert_eq!(trim_trailing_slash("http://s"), "http://s");
    assert_eq!(trim_trailing_slash(""), "");
}

#[test]
fn relative_urls_concatenate_absolute_ones_stand() {
    assert_eq!(resolve_upload_url("http://s/", "/up/x"), "http://s/up/x");
    assert_eq!(
        resolve_upload_url("http://s", "https://cdn/up/x"),
        "https://cdn/up/x"
    );
}

#[test]
fn epoch_zero_renders_as_epoch_start() {
    assert_eq!(format_utc_timestamp(0), "1970-01-01T00:00:00Z");
}

#[test]
fn known_timestamp_renders_exactly() {
    assert_eq!(format_utc_timestamp(1700000000), "2023-11-14T22:13:20Z");
}

#[test]
fn leap_day_renders() {
    assert_eq!(format_utc_timestamp(951782400), "2000-02-29T00:00:00Z");
}

#[test]
fn end_of_century_renders() {
    let dt = epoch_to_utc(4102444799);
    assert_eq!(dt.year, 2099);
    assert_eq!(dt.month, 12);
    assert_eq!(dt.day, 31);
    assert_eq!(render_utc(&dt), "2099-12-31T23:59:59Z");
}
