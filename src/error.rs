use vstd::prelude::*;

verus! {

/// The kinds of failure of a run, with what each one reports.
#[derive(Debug, Clone, PartialEq, Eq)]
pub enum Error {
    /// The output directory could not be prepared.
    CreateOutput,
    /// The repository identifier is missing, or the remote URL shown could not be parsed.
    Repo(String),
    /// The revision could not be resolved.
    Rev,
    /// No credential was supplied.
    NoToken,
    /// The credential cannot stand in a header.
    InvalidToken,
    /// The HTTP client could not be built.
    RequestClient,
    /// Listing or filtering the artifacts failed.
    GetArtifacts,
    /// A response body was malformed.
    Parse,
    /// A version-control command failed, with its exit code where it had one.
    Command(Option<i32>),
    /// A request failed, with the response status where there was one.
    Request(Option<u16>),
    /// The artifact was removed by the provider.
    Expired,
    /// The archive could not be extracted.
    Extract,
    /// Downloading one artifact failed: its name, its URL and the cause.
    DownloadArtifact { name: String, url: String, cause: DownloadFailure },
}

/// Why the download of one artifact failed.
#[derive(Debug, Clone, PartialEq, Eq)]
pub enum DownloadFailure {
    /// The request failed, with the response status where there was one.
    Request(Option<u16>),
    /// The provider answered 410: the artifact was removed.
    Expired,
    /// The archive could not be extracted.
    Extract,
}

} // verus!
