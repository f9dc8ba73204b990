//! What the library asks of the file system.

use vstd::prelude::*;

verus! {

/// What the file system said about the two paths of a draft at one moment.
#[derive(Debug, Clone, Copy, PartialEq, Eq)]
pub struct PathProbe {
    /// Something exists at the preview image path.
    pub preview_exists: bool,
    /// A regular file exists at the preview image path.
    pub preview_is_file: bool,
    /// A directory exists at the target folder path.
    pub target_is_dir: bool,
}

/// Calls `std::path::Path::exists`. The answer depends on the disk at the
/// moment of the call, so nothing is claimed about it.
#[verifier::external_body]
pub(crate) fn path_exists(path: &str) -> (found: bool) {
    std::path::Path::new(path).exists()
}

/// Calls `std::path::Path::is_file`. The answer depends on the disk at the
/// moment of the call, so nothing is claimed about it.
#[verifier::external_body]
fn path_is_file(path: &str) -> (found: bool) {
    std::path::Path::new(path).is_file()
}

/// Calls `std::path::Path::is_dir`. The answer depends on the disk at the
/// moment of the call, so nothing is claimed about it.
#[verifier::external_body]
fn path_is_dir(path: &str) -> (found: bool) {
    std::path::Path::new(path).is_dir()
}

/// Looks up both paths on disk. Every combination of answers is possible:
/// what is done with them is decided by functions that take a `PathProbe`.
pub fn probe_paths(preview_image: &str, target_folder: &str) -> (probe: PathProbe) {
    PathProbe {
        preview_exists: path_exists(preview_image),
        preview_is_file: path_is_file(preview_image),
        target_is_dir: path_is_dir(target_folder),
    }
}

} // verus!
