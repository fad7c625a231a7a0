//! The two-phase content-addressed upload protocol: request an upload slot
//! naming the content identifier, then PUT the bytes to the granted URL
//! under a create-only precondition. The functions here decide everything
//! except the network transfer itself: they build the requests and
//! classify the server's answers.

use vstd::prelude::*;
use vstd::string::*;
use crate::hashing::{content_id, hash_id};
use crate::json::{filename_body, filename_body_exec};
use crate::urls::{resolved_upload_url, resolve_upload_url, upload_url_endpoint,
    upload_url_endpoint_exec};

verus! {

/// The status and body an HTTP exchange came back with.
pub struct HttpResponse {
    pub status: u16,
    pub body: String,
}

/// The outcome of an upload: the bytes landed fresh, or identical content
/// already lived on the server. Either way the payload is the content
/// identifier, which doubles as the remote filename.
#[derive(Debug)]
pub enum UploadResult {
    Uploaded(String),
    Duplicate(String),
}

/// Why an upload failed.
#[derive(Debug)]
pub enum UploadError {
    /// The upload-slot request was answered with a non-success status.
    UploadUrlRequestFailed(u16),
    /// The upload-slot answer held no `url` string field.
    MalformedUploadUrlResponse,
    /// The PUT of the bytes was answered with an unexpected status; the
    /// answer's body is kept for the log.
    UploadFailed(u16, String),
}

/// Whether an HTTP status reports success.
pub open spec fn is_success_status(status: u16) -> bool {
    200 <= status < 300
}

/// Whether a PUT status means the bytes landed.
pub open spec fn is_put_success(status: u16) -> bool {
    status == 200 || status == 201 || status == 204
}

/// What the `url` string field of the upload-slot answer holds, if the
/// text parses as JSON and has one.
pub uninterp spec fn url_field_of(body: Seq<char>) -> Option<Seq<char>>;

/// Relies on serde_json::from_str and serde_json::Value::{get, as_str}:
/// whether `body` parses as JSON carrying a string field `url`, and what
/// that field holds, are functions of the text alone.
#[verifier::external_body]
fn extract_url_field(body: &str) -> (r: Option<String>)
    ensures
        r.deep_view() == url_field_of(body@),
{
    match serde_json::from_str::<serde_json::Value>(body) {
        Ok(v) => v.get("url").and_then(|u| u.as_str()).map(|s| s.to_string()),
        Err(_) => None,
    }
}

/// The first phase's POST, ready to send: the slot endpoint and the JSON
/// body naming the content identifier of the bytes.
pub struct UploadRequest {
    pub id: String,
    pub url: String,
    pub body: String,
}

/// Build the upload-slot request for `data`.
pub fn upload_request(server: &str, data: &[u8]) -> (r: UploadRequest)
    ensures
        r.id@ == content_id(data@),
        r.url@ == upload_url_endpoint(server@),
        r.body@ == filename_body(content_id(data@)),
{
    let id = hash_id(data);
    let url = upload_url_endpoint_exec(server);
    let body = filename_body_exec(id.as_str());
    UploadRequest { id, url, body }
}

/// The second phase's PUT, ready to send: the resolved target and the
/// content type. The send carries the raw bytes and a create-only
/// precondition (write only if nothing exists at the target).
pub struct PutPlan {
    pub url: String,
    pub content_type: String,
}

/// Classify the answer to the upload-slot request. A non-success status
/// fails; a success answer must hold a `url` string field, which resolves
/// against the server base into the PUT target.
pub fn upload_after_post(server: &str, post: &HttpResponse, content_type: &str) -> (r: Result<
    PutPlan,
    UploadError,
>)
    ensures
        !is_success_status(post.status) ==> (r matches Err(e) && e
            == UploadError::UploadUrlRequestFailed(post.status)),
        is_success_status(post.status) && url_field_of(post.body@) is None ==> (r matches Err(e)
            && e == UploadError::MalformedUploadUrlResponse),
        is_success_status(post.status) && url_field_of(post.body@) is Some ==> (r matches Ok(plan)
            && plan.url@ == resolved_upload_url(server@, url_field_of(post.body@)->Some_0)
            && plan.content_type@ == content_type@),
{
    if !(200 <= post.status && post.status < 300) {
        return Err(UploadError::UploadUrlRequestFailed(post.status));
    }
    match extract_url_field(post.body.as_str()) {
        None => Err(UploadError::MalformedUploadUrlResponse),
        Some(u) => Ok(
            PutPlan {
                url: resolve_upload_url(server, u.as_str()),
                content_type: content_type.to_owned(),
            },
        ),
    }
}

/// Classify the answer to the conditional PUT of the bytes named `id`:
/// 200, 201 and 204 mean the bytes landed; 412 means the create-only
/// precondition failed because content with this identifier already
/// exists; any other status is a failure carrying status and body.
pub fn upload_after_put(id: String, put: HttpResponse) -> (r: Result<UploadResult, UploadError>)
    ensures
        is_put_success(put.status) ==> (r matches Ok(UploadResult::Uploaded(i)) && i@ == id@),
        put.status == 412 ==> (r matches Ok(UploadResult::Duplicate(i)) && i@ == id@),
        !is_put_success(put.status) && put.status != 412 ==> (r matches Err(e) && e
            == UploadError::UploadFailed(put.status, put.body)),
{
    if put.status == 200 || put.status == 201 || put.status == 204 {
        Ok(UploadResult::Uploaded(id))
    } else if put.status == 412 {
        Ok(UploadResult::Duplicate(id))
    } else {
        Err(UploadError::UploadFailed(put.status, put.body))
    }
}

/// The outcome of the whole two-phase upload of `data`, given the two
/// answers the server gave: to the upload-slot POST and to the conditional
/// PUT. The PUT answer matters only when the POST phase granted a target.
/// Identical bytes always carry the identical identifier, so the server
/// can answer 412 and have the duplicate reported under the same id as the
/// original upload.
pub fn upload_media(server: &str, data: &[u8], post: &HttpResponse, put: HttpResponse) -> (r:
    Result<UploadResult, UploadError>)
    ensures
        !is_success_status(post.status) ==> (r matches Err(e) && e
            == UploadError::UploadUrlRequestFailed(post.status)),
        is_success_status(post.status) && url_field_of(post.body@) is None ==> (r matches Err(e)
            && e == UploadError::MalformedUploadUrlResponse),
        is_success_status(post.status) && url_field_of(post.body@) is Some ==> {
            &&& is_put_success(put.status) ==> (r matches Ok(UploadResult::Uploaded(i)) && i@
                == content_id(data@))
            &&& put.status == 412 ==> (r matches Ok(UploadResult::Duplicate(i)) && i@
                == content_id(data@))
            &&& !is_put_success(put.status) && put.status != 412 ==> (r matches Err(e) && e
                == UploadError::UploadFailed(put.status, put.body))
        },
{
    let id = hash_id(data);
    if !(200 <= post.status && post.status < 300) {
        return Err(UploadError::UploadUrlRequestFailed(post.status));
    }
    match extract_url_field(post.body.as_str()) {
        None => Err(UploadError::MalformedUploadUrlResponse),
        Some(_) => upload_after_put(id, put),
    }
}

} // verus!
