//! The failure taxonomy of a resolution attempt, and the human-readable
//! message each failure carries to the host.

use vstd::prelude::*;

verus! {

/// Why a resolution attempt failed. Only the network-fetch tier can fail;
/// earlier tiers that do not apply simply fall through.
#[derive(Clone, Debug, PartialEq, Eq)]
pub enum ResolveError {
    /// The host architecture is `X86`, which no release supports.
    UnsupportedPlatform,
    /// The latest release carries no asset under the expected name.
    AssetNotFound { asset: String },
    /// Querying the release index failed; the message is the index's own.
    Fetch { message: String },
    /// Downloading or extracting the archive failed.
    Download { message: String },
    /// The extracted file could not be marked executable.
    Permission { message: String },
    /// The working directory could not be listed for cleanup.
    DirectoryList { message: String },
    /// An entry of the working directory could not be read during cleanup.
    DirectoryEntry { message: String },
}

/// What went wrong while the host carried out an install request: the
/// download-and-extract step, or the mark-executable step after it.
#[derive(Clone, Debug, PartialEq, Eq)]
pub enum InstallFault {
    Download { message: String },
    Permission { message: String },
}

/// What went wrong while the host listed the working directory: the listing
/// itself, or reading one of its entries.
#[derive(Clone, Debug, PartialEq, Eq)]
pub enum ListFault {
    List { message: String },
    Entry { message: String },
}

impl ResolveError {
    /// The exact wording of each failure message.
    pub open spec fn spec_describe(&self) -> Seq<char> {
        match self {
            ResolveError::UnsupportedPlatform => "x86 not supported"@,
            ResolveError::AssetNotFound { asset } => "unable to find "@ + asset@
                + " in latest release"@,
            ResolveError::Fetch { message } => message@,
            ResolveError::Download { message } => "failed to download file: "@ + message@,
            ResolveError::Permission { message } => message@,
            ResolveError::DirectoryList { message } => "failed to list working directory "@
                + message@,
            ResolveError::DirectoryEntry { message } => "failed to load directory entry "@
                + message@,
        }
    }

    /// Renders the failure as the message the host reports, identifying the
    /// step that failed.
    pub fn describe(&self) -> (r: String)
        ensures
            r@ == self.spec_describe(),
    {
        match self {
            ResolveError::UnsupportedPlatform => String::from_str("x86 not supported"),
            ResolveError::AssetNotFound { asset } => String::from_str("unable to find ").concat(
                asset.as_str(),
            ).concat(" in latest release"),
            ResolveError::Fetch { message } => message.clone(),
            ResolveError::Download { message } => String::from_str(
                "failed to download file: ",
            ).concat(message.as_str()),
            ResolveError::Permission { message } => message.clone(),
            ResolveError::DirectoryList { message } => String::from_str(
                "failed to list working directory ",
            ).concat(message.as_str()),
            ResolveError::DirectoryEntry { message } => String::from_str(
                "failed to load directory entry ",
            ).concat(message.as_str()),
        }
    }
}

} // verus!
