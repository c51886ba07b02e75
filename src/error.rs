//! The failures that the library's decisions can report.
use vstd::prelude::*;

verus! {

/// Why an operation of the library refused or failed.
#[derive(Debug, PartialEq, Eq)]
pub enum SdkError {
    /// A token named a fork alias that the configuration does not hold.
    ForkNotFound(String),
    /// A fork alias was added twice.
    ForkExists(String),
    /// A fork URL does not end in `.git`.
    InvalidGitUrl(String),
    /// A channel name was used as a flavor name.
    InvalidFlavorName(String),
    /// The version is not installed.
    NotInstalled(String),
    /// The machine architecture is outside the set the SDK ships engines for.
    UnsupportedPlatform(String),
    /// The release manifest names a current release it does not list.
    MissingCurrentRelease(String),
    /// `flutter upgrade` was asked of a pinned release, not a channel.
    UpgradeOfRelease(String),
    /// Command-line arguments that contradict each other.
    InvalidArguments(String),
    /// A stage of the install failed outside the library; the stage and
    /// the message it reported.
    StageFailed(String, String),
}

} // verus!
