use vstd::prelude::*;

verus! {

/// Every way a download can fail.  Each variant carries the offending URL or
/// path (and, where one exists, the underlying cause) so that a fatal report
/// can name them.  No failure is recovered from: any one of these aborts the
/// whole batch.
#[derive(Debug)]
pub enum DownloadError {
    /// The URL cannot name a download: it is not an absolute HTTP(S) URL
    /// with a path, or its final path segment does not end in `.iso`.
    InvalidTarget(String),
    /// Connecting, sending the request, or reading the body stream failed.
    /// Carries the URL and the underlying cause.
    NetworkError(String, String),
    /// The response declared no total size, so progress cannot be computed
    /// and the transfer is refused.  Carries the URL.
    MissingContentLength(String),
    /// The destination file could not be created.  Carries the path.
    FileCreateError(String),
    /// A chunk could not be written in full.  Carries the path.
    WriteError(String),
    /// The helper script could not be fetched, marked executable, or run.
    SubprocessError(String),
}

} // verus!
