//! Path classification: whether a filesystem path names an ingestible
//! media file, judged from its filename extension alone, and the bulk-scan
//! tally over a directory listing. Whether a path is a regular file is a
//! filesystem fact; callers report it alongside the path.

use vstd::prelude::*;
use vstd::string::*;
use crate::paths::{extension_of, file_extension, has_prefix, str_starts_with};

verus! {

/// The media type that filename-extension sniffing assigns to an
/// extension, rendered "type/subtype"; None when the extension has no
/// known mapping.
pub uninterp spec fn mime_essence(ext: Seq<char>) -> Option<Seq<char>>;

/// Relies on mime_guess::from_ext (and mime::Mime::essence_str): the
/// guessed type is a case-insensitive lookup of the extension in a fixed
/// table, a function of the extension string alone, rendered as
/// "type/subtype".
#[verifier::external_body]
fn guess_mime_essence(ext: &str) -> (r: Option<String>)
    ensures
        r.deep_view() == mime_essence(ext@),
{
    mime_guess::from_ext(ext).first().map(|m| m.essence_str().to_string())
}

/// The content type inferred for `path` from its filename extension alone.
pub open spec fn mime_of_path(path: Seq<char>) -> Option<Seq<char>> {
    match extension_of(path) {
        Some(e) => mime_essence(e),
        None => None,
    }
}

/// Whether a content type's top-level category is `image` or `video`.
pub open spec fn is_media_mime(m: Seq<char>) -> bool {
    has_prefix(m, "image/"@) || has_prefix(m, "video/"@)
}

/// Whether `path` names an ingestible media file: a regular file whose
/// inferred content type is an image or a video.
pub open spec fn is_media_path(path: Seq<char>, is_regular_file: bool) -> bool {
    is_regular_file && match mime_of_path(path) {
        Some(m) => is_media_mime(m),
        None => false,
    }
}

/// The content type reported for the file at `path`: None unless `path`
/// is a regular file with a recognized extension.
pub open spec fn file_mime_of(path: Seq<char>, is_regular_file: bool) -> Option<Seq<char>> {
    if is_regular_file {
        mime_of_path(path)
    } else {
        None
    }
}

/// Infer the content type of the file at `path` from its filename
/// extension. `is_regular_file` reports whether the filesystem says `path`
/// is a regular file; a non-file never classifies.
pub fn get_file_mime_type(path: &str, is_regular_file: bool) -> (r: Option<String>)
    ensures
        r.deep_view() == file_mime_of(path@, is_regular_file),
{
    if !is_regular_file {
        return None;
    }
    match file_extension(path) {
        Some(e) => guess_mime_essence(e.as_str()),
        None => None,
    }
}

/// Decide whether `path` names an ingestible media file: a regular file
/// whose extension-inferred content type is an image or a video. A path
/// with no recognizable extension is never media.
pub fn is_media_file(path: &str, is_regular_file: bool) -> (r: bool)
    ensures
        r == is_media_path(path@, is_regular_file),
{
    if !is_regular_file {
        return false;
    }
    match file_extension(path) {
        None => false,
        Some(e) => match guess_mime_essence(e.as_str()) {
            None => false,
            Some(m) => str_starts_with(m.as_str(), "image/") || str_starts_with(
                m.as_str(),
                "video/",
            ),
        },
    }
}

/// One entry of a recursive directory listing: its path, whether it is a
/// regular file, and its size in bytes.
pub struct ScanEntry {
    pub path: String,
    pub is_file: bool,
    pub size: u64,
}

/// Whether a listed entry classifies as an image file.
pub open spec fn entry_is_image(e: ScanEntry) -> bool {
    e.is_file && match mime_of_path(e.path@) {
        Some(m) => has_prefix(m, "image/"@),
        None => false,
    }
}

/// Whether a listed entry classifies as a video file.
pub open spec fn entry_is_video(e: ScanEntry) -> bool {
    e.is_file && match mime_of_path(e.path@) {
        Some(m) => has_prefix(m, "video/"@),
        None => false,
    }
}

/// u64 addition that stops at the largest representable value.
pub open spec fn sat_add_u64(a: u64, b: u64) -> u64 {
    if a + b > u64::MAX {
        u64::MAX
    } else {
        (a + b) as u64
    }
}

/// How many entries classify as video files.
pub open spec fn video_count(es: Seq<ScanEntry>) -> int
    decreases es.len(),
{
    if es.len() == 0 {
        0
    } else {
        video_count(es.drop_last()) + if entry_is_video(es.last()) {
            1int
        } else {
            0int
        }
    }
}

/// How many entries classify as image files.
pub open spec fn image_count(es: Seq<ScanEntry>) -> int
    decreases es.len(),
{
    if es.len() == 0 {
        0
    } else {
        image_count(es.drop_last()) + if entry_is_image(es.last()) {
            1int
        } else {
            0int
        }
    }
}

/// The total size of the entries that classify as media, saturating at the
/// largest u64.
pub open spec fn media_size_sum(es: Seq<ScanEntry>) -> u64
    decreases es.len(),
{
    if es.len() == 0 {
        0
    } else if entry_is_image(es.last()) || entry_is_video(es.last()) {
        sat_add_u64(media_size_sum(es.drop_last()), es.last().size)
    } else {
        media_size_sum(es.drop_last())
    }
}

/// Tally a recursive directory listing: how many entries classify as
/// videos, how many as images, and the total size in bytes of all media
/// entries (saturating). Read-only; entries the walk could not read are
/// simply absent from the listing.
pub fn scan_folder(entries: &Vec<ScanEntry>) -> (r: (u64, u64, u64))
    ensures
        r.0 == video_count(entries@),
        r.1 == image_count(entries@),
        r.2 == media_size_sum(entries@),
{
    let mut videos: u64 = 0;
    let mut images: u64 = 0;
    let mut size: u64 = 0;
    let mut i: usize = 0;
    proof {
        assert(entries@.take(0) =~= Seq::<ScanEntry>::empty());
    }
    while i < entries.len()
        invariant
            i <= entries.len(),
            videos == video_count(entries@.take(i as int)),
            images == image_count(entries@.take(i as int)),
            size == media_size_sum(entries@.take(i as int)),
            videos <= i,
            images <= i,
        decreases entries.len() - i,
    {
        proof {
            assert(entries@.take(i as int + 1).drop_last() =~= entries@.take(i as int));
            assert(entries@.take(i as int + 1).last() == entries@[i as int]);
        }
        let e = &entries[i];
        match get_file_mime_type(e.path.as_str(), e.is_file) {
            Some(m) => {
                let is_image = str_starts_with(m.as_str(), "image/");
                let is_video = str_starts_with(m.as_str(), "video/");
                if is_image || is_video {
                    size = size.saturating_add(e.size);
                }
                if is_image {
                    images = images + 1;
                }
                if is_video {
                    videos = videos + 1;
                }
            },
            None => {},
        }
        i = i + 1;
    }
    proof {
        assert(entries@.take(entries@.len() as int) =~= entries@);
    }
    (videos, images, size)
}

} // verus!
