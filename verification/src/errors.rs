//! The launcher's error taxonomy. Every error is fatal to the current
//! invocation: there is no retry anywhere in the pipeline.

use vstd::prelude::*;

verus! {

/// Why a launch failed before control reached the target.
#[derive(Clone, Copy, Debug, PartialEq, Eq, Structural)]
pub enum LauncherError {
    /// The build-time target-name buffer is malformed: it lacks the
    /// terminating sentinel, or the bytes before it are not valid text.
    /// A packer defect, detected before any filesystem access.
    MalformedBuildConstant,
    /// The platform gave no local-data root, or the launcher's own path or
    /// metadata could not be determined.
    EnvironmentError,
    /// A stale cache tree could not be removed or replaced.
    CacheRefreshError,
    /// The embedded archive does not parse.
    ExtractionCorrupt,
    /// The filesystem refused a write while materializing the archive.
    ExtractionIo,
    /// An archive entry's relative path would escape the destination
    /// directory.
    ExtractionUnsafePath,
    /// The extracted target is missing or could not be started.
    LaunchError,
}

} // verus!
