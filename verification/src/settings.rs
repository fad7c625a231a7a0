//! The agent's configuration: the watched folder, the media server's base
//! URL, the folder-to-tag rules, and whether to stamp an upload date.
//! The configuration is owned by an external settings store; this crate
//! sees read-only snapshots of it.

use vstd::prelude::*;

verus! {

/// A folder-name-to-tags mapping: a file whose containing directory has a
/// normal component equal to `folder` receives the whitespace-separated
/// tags in `tags`.
pub struct AutoTagRule {
    pub folder: String,
    pub tags: String,
}

/// A read-only snapshot of the agent's settings.
pub struct Settings {
    pub folder: String,
    pub server: String,
    pub auto_tags: Vec<AutoTagRule>,
    pub override_upload_date: bool,
}

/// A watch may start only when both the folder and the server are set.
pub open spec fn config_complete(folder: Seq<char>, server: Seq<char>) -> bool {
    folder.len() > 0 && server.len() > 0
}

} // verus!
