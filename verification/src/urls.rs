//! The endpoints of the remote media API, and resolution of the upload
//! URL the server hands back (absolute, or relative to the server base).

use vstd::prelude::*;
use vstd::string::*;
use crate::paths::{has_prefix, str_starts_with};

verus! {

/// `s` with every trailing slash removed.
pub open spec fn trim_trailing_slashes(s: Seq<char>) -> Seq<char>
    decreases s.len(),
{
    if s.len() > 0 && s.last() == '/' {
        trim_trailing_slashes(s.drop_last())
    } else {
        s
    }
}

/// Strip every trailing slash of `s`.
pub fn trim_trailing_slash(s: &str) -> (r: &str)
    ensures
        r@ == trim_trailing_slashes(s@),
{
    let mut j = s.unicode_len();
    proof {
        assert(s@.take(j as int) =~= s@);
    }
    loop
        invariant
            j <= s@.len(),
            trim_trailing_slashes(s@.take(j as int)) == trim_trailing_slashes(s@),
        ensures
            j <= s@.len(),
            s@.take(j as int) == trim_trailing_slashes(s@),
        decreases j,
    {
        if j == 0 {
            proof {
                assert(s@.take(0) =~= Seq::<char>::empty());
            }
            break ;
        }
        let c = s.get_char(j - 1);
        if c != '/' {
            proof {
                assert(s@.take(j as int).last() == s@[j - 1]);
            }
            break ;
        }
        proof {
            assert(s@.take(j as int).last() == s@[j - 1]);
            assert(s@.take(j as int).drop_last() =~= s@.take(j as int - 1));
        }
        j = j - 1;
    }
    let r = s.substring_char(0, j);
    proof {
        assert(r@ =~= s@.take(j as int));
    }
    r
}

/// The endpoint that grants an upload slot.
pub open spec fn upload_url_endpoint(server: Seq<char>) -> Seq<char> {
    trim_trailing_slashes(server) + "/api/media/upload-url"@
}

/// Build the upload-slot endpoint under `server`.
pub fn upload_url_endpoint_exec(server: &str) -> (r: String)
    ensures
        r@ == upload_url_endpoint(server@),
{
    let base = trim_trailing_slash(server);
    let mut out = base.to_owned();
    out.append("/api/media/upload-url");
    out
}

/// The media resource for `id`: polled to learn whether the upload has
/// been indexed.
pub open spec fn media_endpoint(server: Seq<char>, id: Seq<char>) -> Seq<char> {
    trim_trailing_slashes(server) + "/api/media/"@ + id
}

/// Build the media-resource endpoint of `id` under `server`.
pub fn media_endpoint_exec(server: &str, id: &str) -> (r: String)
    ensures
        r@ == media_endpoint(server@, id@),
{
    let base = trim_trailing_slash(server);
    let mut out = base.to_owned();
    out.append("/api/media/");
    out.append(id);
    proof {
        assert(out@ =~= media_endpoint(server@, id@));
    }
    out
}

/// The endpoint that attaches tags to the media item `id`.
pub open spec fn tags_endpoint(server: Seq<char>, id: Seq<char>) -> Seq<char> {
    media_endpoint(server, id) + "/tags"@
}

/// Build the tag-attach endpoint of `id` under `server`.
pub fn tags_endpoint_exec(server: &str, id: &str) -> (r: String)
    ensures
        r@ == tags_endpoint(server@, id@),
{
    let mut out = media_endpoint_exec(server, id);
    out.append("/tags");
    out
}

/// The endpoint that attaches dates to the media item `id`.
pub open spec fn dates_endpoint(server: Seq<char>, id: Seq<char>) -> Seq<char> {
    media_endpoint(server, id) + "/dates"@
}

/// Build the date-attach endpoint of `id` under `server`.
pub fn dates_endpoint_exec(server: &str, id: &str) -> (r: String)
    ensures
        r@ == dates_endpoint(server@, id@),
{
    let mut out = media_endpoint_exec(server, id);
    out.append("/dates");
    out
}

/// The upload URL the server handed back, made absolute: one that already
/// carries a scheme stands as it is; any other is a path relative to the
/// server base.
pub open spec fn resolved_upload_url(server: Seq<char>, url: Seq<char>) -> Seq<char> {
    if has_prefix(url, "http"@) {
        url
    } else {
        trim_trailing_slashes(server) + url
    }
}

/// Resolve the upload URL the server handed back against the server base.
pub fn resolve_upload_url(server: &str, url: &str) -> (r: String)
    ensures
        r@ == resolved_upload_url(server@, url@),
{
    if str_starts_with(url, "http") {
        url.to_owned()
    } else {
        let base = trim_trailing_slash(server);
        let mut out = base.to_owned();
        out.append(url);
        out
    }
}

} // verus!
