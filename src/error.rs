//! Failures of a run, each naming what went wrong.
use vstd::prelude::*;

verus! {

#[derive(Debug, Clone, PartialEq, Eq)]
pub enum WallpaperError {
    /// The image service could not be reached or did not answer; holds the
    /// address and the cause.
    ImageRequestFailed(String),
    /// The service's answer was not the expected document; holds the cause.
    ResponseParseFailed(String),
    /// The service's answer listed no image.
    NoImageAvailable,
    /// The image's path fragment lacks the marker segment; holds the fragment.
    UnparseableUrlBase(String),
    /// A `~` in the backup directory asked for a home directory that is not known.
    HomeDirUnavailable,
}

} // verus!
