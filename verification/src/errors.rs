use vstd::prelude::*;
use vstd::string::StringExecFns;

verus! {

/// Every failure of a reconciliation call, classified by kind.
///
/// Backend failures carry the backend's own account of the problem as a
/// plain string, so that the host can log or surface it; the kind itself
/// records which stage of the reconciliation failed.
#[derive(Debug, Clone, PartialEq, Eq)]
pub enum GitSyncError {
    /// The directory exists and is a repository, but its remote is not the
    /// one this `GitSync` tracks. It is never adopted or overwritten.
    IncorrectGitRemotes { dir: String, expected: String, actual: String },
    /// The working tree has uncommitted or untracked changes; no sync is
    /// attempted against it.
    WorkTreeNotClean,
    /// Local and remote history have diverged; only fast-forward updates
    /// are ever applied.
    FastForwardMergeNotPossible,
    /// The directory exists but could not be opened as a repository.
    GixOpenError { message: String },
    /// The configured remote URL could not be parsed.
    GixParseError { message: String },
    /// Preparing the clone of the remote failed.
    GixCloneError { message: String },
    /// The fetch stage of a clone failed.
    GixCloneFetchError { message: String },
    /// The checkout stage of a clone failed, after its fetch succeeded.
    GixCloneCheckoutError { message: String },
    /// Fetching from the remote during a sync failed.
    FetchFailed { message: String },
    /// Moving the local branch reference to the fetched tip failed.
    RefUpdateFailed { message: String },
    /// Updating the working tree to the fetched tip failed; the branch
    /// reference may already have moved.
    CheckoutFailed { message: String },
    /// Any other backend or filesystem failure.
    GenericError { message: String },
}

impl GitSyncError {
    /// The human-readable account of this error.
    pub open spec fn describe_spec(&self) -> Seq<char> {
        match self {
            GitSyncError::IncorrectGitRemotes { dir, expected, actual } =>
                "A directory already exists at "@ + dir@
                    + " and is a Git repository, but we expected the remote to be "@
                    + expected@ + " and got "@ + actual@ + "."@,
            GitSyncError::WorkTreeNotClean => "The worktree isn't clean. Refusing to sync"@,
            GitSyncError::FastForwardMergeNotPossible => "Can't fast-forward merge"@,
            GitSyncError::GixOpenError { message } =>
                "There was an error opening the Git repository: "@ + message@,
            GitSyncError::GixParseError { message } =>
                "There was an error parsing the URL: "@ + message@,
            GitSyncError::GixCloneError { message } =>
                "There was an error cloning the repository: "@ + message@,
            GitSyncError::GixCloneFetchError { message } =>
                "There was an error fetching the repository: "@ + message@,
            GitSyncError::GixCloneCheckoutError { message } =>
                "There was an error checking out the repository: "@ + message@,
            GitSyncError::FetchFailed { message } =>
                "There was an error fetching from the remote: "@ + message@,
            GitSyncError::RefUpdateFailed { message } =>
                "There was an error moving the branch reference: "@ + message@,
            GitSyncError::CheckoutFailed { message } =>
                "There was an error updating the working tree: "@ + message@,
            GitSyncError::GenericError { message } =>
                "There was an IO error: "@ + message@,
        }
    }

    /// Render this error for logging or display.
    pub fn describe(&self) -> (r: String)
        ensures
            r@ == self.describe_spec(),
    {
        match self {
            GitSyncError::IncorrectGitRemotes { dir, expected, actual } => {
                let mut s = String::from_str("A directory already exists at ");
                s.append(dir.as_str());
                s.append(" and is a Git repository, but we expected the remote to be ");
                s.append(expected.as_str());
                s.append(" and got ");
                s.append(actual.as_str());
                s.append(".");
                s
            },
            GitSyncError::WorkTreeNotClean => String::from_str(
                "The worktree isn't clean. Refusing to sync",
            ),
            GitSyncError::FastForwardMergeNotPossible => String::from_str(
                "Can't fast-forward merge",
            ),
            GitSyncError::GixOpenError { message } => {
                let mut s = String::from_str("There was an error opening the Git repository: ");
                s.append(message.as_str());
                s
            },
            GitSyncError::GixParseError { message } => {
                let mut s = String::from_str("There was an error parsing the URL: ");
                s.append(message.as_str());
                s
            },
            GitSyncError::GixCloneError { message } => {
                let mut s = String::from_str("There was an error cloning the repository: ");
                s.append(message.as_str());
                s
            },
            GitSyncError::GixCloneFetchError { message } => {
                let mut s = String::from_str("There was an error fetching the repository: ");
                s.append(message.as_str());
                s
            },
            GitSyncError::GixCloneCheckoutError { message } => {
                let mut s = String::from_str("There was an error checking out the repository: ");
                s.append(message.as_str());
                s
            },
            GitSyncError::FetchFailed { message } => {
                let mut s = String::from_str("There was an error fetching from the remote: ");
                s.append(message.as_str());
                s
            },
            GitSyncError::RefUpdateFailed { message } => {
                let mut s = String::from_str("There was an error moving the branch reference: ");
                s.append(message.as_str());
                s
            },
            GitSyncError::CheckoutFailed { message } => {
                let mut s = String::from_str("There was an error updating the working tree: ");
                s.append(message.as_str());
                s
            },
            GitSyncError::GenericError { message } => {
                let mut s = String::from_str("There was an IO error: ");
                s.append(message.as_str());
                s
            },
        }
    }
}

} // verus!
