//! Post-upload finalization: once the just-uploaded item is indexed, the
//! resolved auto tags and, when configured, an upload date derived from
//! the file's last-modified time are attached to it. Both attachments are
//! best-effort — uploaded content is never rolled back, and their failure
//! never fails the ingestion.

use vstd::prelude::*;
use vstd::string::*;
use crate::json::{dates_body, dates_body_exec, tags_body, tags_body_exec};
use crate::settings::AutoTagRule;
use crate::tagging::{resolve_tags, tags_for_path};
use crate::urls::{dates_endpoint, dates_endpoint_exec, tags_endpoint, tags_endpoint_exec};

verus! {

/// A POST the caller owes the server: its target and its JSON body.
pub struct HttpPost {
    pub url: String,
    pub body: String,
}

/// Build the request that attaches `tags` to the media item `id`.
pub fn add_tags(server: &str, id: &str, tags: &Vec<String>) -> (r: HttpPost)
    ensures
        r.url@ == tags_endpoint(server@, id@),
        r.body@ == tags_body(tags.deep_view()),
{
    HttpPost { url: tags_endpoint_exec(server, id), body: tags_body_exec(tags) }
}

/// Build the request that attaches the date `name` = `value` to the media
/// item `id`.
pub fn add_date(server: &str, id: &str, name: &str, value: &str) -> (r: HttpPost)
    ensures
        r.url@ == dates_endpoint(server@, id@),
        r.body@ == dates_body(name@, value@),
{
    HttpPost { url: dates_endpoint_exec(server, id), body: dates_body_exec(name, value) }
}

/// The follow-up requests owed after an upload: the tag attach, when any
/// tags resolve, and the date attach, when the upload date is to be
/// overridden and a modified time is known. None of either when the
/// indexing wait gave up.
pub struct FinalizePlan {
    pub tag_post: Option<HttpPost>,
    pub date_post: Option<HttpPost>,
}

/// Plan the finalization of the media item `id`, uploaded from `path`.
/// `indexed` reports whether the indexing wait succeeded: when it did not,
/// nothing further is owed (the upload itself stands). Tags come from the
/// auto-tag rules; the date comes as `modified_utc`, the file's
/// last-modified time rendered as UTC text, when the filesystem gave one.
pub fn apply_tags_and_date(
    server: &str,
    path: &str,
    id: &str,
    rules: &[AutoTagRule],
    override_upload_date: bool,
    indexed: bool,
    modified_utc: &Option<String>,
) -> (r: FinalizePlan)
    ensures
        !indexed ==> r.tag_post is None && r.date_post is None,
        indexed ==> (match r.tag_post {
            Some(p) => resolve_tags(path@, rules@).len() > 0 && p.url@ == tags_endpoint(
                server@,
                id@,
            ) && p.body@ == tags_body(resolve_tags(path@, rules@)),
            None => resolve_tags(path@, rules@).len() == 0,
        }),
        indexed ==> (match r.date_post {
            Some(p) => override_upload_date && (match modified_utc {
                Some(v) => p.url@ == dates_endpoint(server@, id@) && p.body@ == dates_body(
                    "upload"@,
                    v@,
                ),
                None => false,
            }),
            None => !override_upload_date || modified_utc is None,
        }),
{
    if !indexed {
        return FinalizePlan { tag_post: None, date_post: None };
    }
    let tags = tags_for_path(path, rules);
    let tag_post = if tags.len() > 0 {
        Some(add_tags(server, id, &tags))
    } else {
        None
    };
    let date_post = if override_upload_date {
        match modified_utc {
            Some(v) => Some(add_date(server, id, "upload", v.as_str())),
            None => None,
        }
    } else {
        None
    };
    FinalizePlan { tag_post, date_post }
}

} // verus!
