//! Keeps a local directory synchronized with one remote Git repository:
//! an idempotent "ensure present, then keep current" reconciler.
//!
//! [`GitSync::bootstrap`] guarantees that a valid clone of the tracked
//! remote exists at the managed path, cloning it when the path is absent
//! and refusing to touch anything else that may be there.
//! [`GitSync::sync`] brings an existing clean clone up to date with the
//! remote tip, applying fast-forward updates only.
//!
//! A `GitSync` owns its directory for the duration of a call: callers
//! must not run `bootstrap` or `sync` concurrently for the same path.
//! Both derive all repository state from disk on every call and return a
//! classified [`errors::GitSyncError`] instead of ever panicking or
//! terminating the process.

mod backend;
pub mod errors;
pub mod state;

use vstd::prelude::*;
use vstd::string::StringExecFns;

use crate::errors::GitSyncError;
use crate::state::{classify_merge, evaluate_directory, worktree_clean_decision};
use crate::state::{DirectoryState, MergeOutcome};

verus! {

/// Configuration for one managed clone: the remote repository to track
/// and the local directory that mirrors it. The optional credential
/// fields are handed to the backend's transport; the engine itself never
/// reads them.
#[derive(Clone, Debug)]
pub struct GitSync {
    /// URL of the remote repository to track (a local path or network URL).
    pub repo: String,
    /// Filesystem path of the managed working directory.
    pub dir: String,
    /// Branch to keep current; the remote's default branch when absent.
    pub branch: Option<String>,
    /// User name for key-based authentication, when the transport needs one.
    pub username: Option<String>,
    /// Passphrase of the private key, when it has one.
    pub passphrase: Option<String>,
    /// Path to the private key for key-based authentication.
    pub private_key: Option<String>,
}

/// The error kinds a clone can surface: one distinct kind per stage, so
/// that a partially-completed clone can be diagnosed.
pub open spec fn spec_clone_error(e: GitSyncError) -> bool {
    ||| e is GixParseError
    ||| e is GixCloneError
    ||| e is GixCloneFetchError
    ||| e is GixCloneCheckoutError
}

/// The error kinds a bootstrap can surface. A remote mismatch always
/// reports the managed directory and the expected URL it was checked
/// against.
pub open spec fn spec_bootstrap_error(e: GitSyncError, repo: Seq<char>, dir: Seq<char>) -> bool {
    match e {
        GitSyncError::IncorrectGitRemotes { dir: d, expected, actual } => d@ == dir && expected@
            == repo,
        GitSyncError::GixOpenError { .. } => true,
        _ => spec_clone_error(e),
    }
}

/// The error kinds a sync can surface. A sync never reports a remote
/// mismatch or a clone failure: it refuses dirty or diverged state and
/// classifies backend failures by the stage that failed.
pub open spec fn spec_sync_error(e: GitSyncError) -> bool {
    ||| e is WorkTreeNotClean
    ||| e is GixOpenError
    ||| e is FetchFailed
    ||| e is GenericError
    ||| e is FastForwardMergeNotPossible
    ||| e is RefUpdateFailed
    ||| e is CheckoutFailed
}

impl GitSync {
    /// The directory inspector: derive the on-disk state of the managed
    /// path, afresh on every call. The result depends only on what is on
    /// disk at this moment.
    pub fn inspect_directory(&self) -> DirectoryState {
        if !backend::path_exists(&self.dir) {
            return DirectoryState::Absent;
        }
        match backend::open_repository(&self.dir) {
            Err(message) => DirectoryState::NotARepository { message },
            Ok(repo) => DirectoryState::Repository {
                remote: backend::origin_remote_state(&repo),
            },
        }
    }

    /// Whether a valid clone of the tracked remote already exists at the
    /// managed path: `Ok(true)` when it does, `Ok(false)` when the path
    /// is absent, and an error — never a write — for anything else found
    /// there.
    pub fn does_clone_exist(&self) -> (r: Result<bool, GitSyncError>)
        ensures
            r matches Err(e) ==> match e {
                GitSyncError::IncorrectGitRemotes { dir: d, expected, actual } => d@ == self.dir@
                    && expected@ == self.repo@,
                GitSyncError::GixOpenError { .. } => true,
                _ => false,
            },
    {
        let inspected = self.inspect_directory();
        evaluate_directory(&inspected, &self.repo, &self.dir)
    }

    /// Clone the tracked remote into the managed directory, creating it
    /// as needed. Each stage that can fail — URL parse, clone setup,
    /// fetch, checkout — reports its own error kind; a failed clone may
    /// leave a partially-initialized directory behind.
    pub fn clone_repository(&self) -> (r: Result<(), GitSyncError>)
        ensures
            r matches Err(e) ==> spec_clone_error(e),
    {
        let url = match backend::parse_remote_url(&self.repo) {
            Err(message) => return Err(GitSyncError::GixParseError { message }),
            Ok(u) => u,
        };
        let prepared = match backend::prepare_clone_into(url, &self.dir, &self.branch) {
            Err(message) => return Err(GitSyncError::GixCloneError { message }),
            Ok(p) => p,
        };
        let checkout = match backend::clone_fetch(prepared) {
            Err(message) => return Err(GitSyncError::GixCloneFetchError { message }),
            Ok(c) => c,
        };
        match backend::clone_checkout(checkout) {
            Err(message) => Err(GitSyncError::GixCloneCheckoutError { message }),
            Ok(_) => Ok(()),
        }
    }

    /// Ensure a valid clone of the tracked remote exists at the managed
    /// path. A present, correctly-configured clone makes this a no-op;
    /// an absent path is cloned into; anything else is reported as an
    /// error and left untouched. Bootstrap never refuses work because of
    /// a dirty tree or diverged history — those kinds belong to `sync`.
    pub fn bootstrap(&self) -> (r: Result<(), GitSyncError>)
        ensures
            r matches Err(e) ==> spec_bootstrap_error(e, self.repo@, self.dir@),
    {
        match self.does_clone_exist() {
            Err(e) => Err(e),
            Ok(true) => Ok(()),
            Ok(false) => self.clone_repository(),
        }
    }

    /// The worktree guard: `true` exactly when the backend positively
    /// reports a status with no uncommitted modification and no untracked
    /// file (ignored files excluded). Any failure to open or query the
    /// repository counts as "not clean".
    pub fn check_worktree_is_clean(&self) -> bool {
        match backend::open_repository(&self.dir) {
            Err(_) => false,
            Ok(repo) => {
                let probe = backend::worktree_status_empty(&repo);
                worktree_clean_decision(&probe)
            },
        }
    }

    /// Bring the clone up to date with the remote tip of the tracked
    /// branch. The guard must report a clean tree, or `WorkTreeNotClean`
    /// is returned before anything is fetched. After the fetch, the tips
    /// are classified: identical tips are a successful no-op; a local tip
    /// that is an ancestor of the remote tip is fast-forwarded (branch
    /// reference moved, HEAD pointed at the branch, working tree forced
    /// to match); anything else is `FastForwardMergeNotPossible` and no
    /// mutation is attempted.
    pub fn sync(&self) -> (r: Result<(), GitSyncError>)
        ensures
            r matches Err(e) ==> spec_sync_error(e),
    {
        if !self.check_worktree_is_clean() {
            return Err(GitSyncError::WorkTreeNotClean);
        }
        let repo = match backend::open_repository(&self.dir) {
            Err(message) => return Err(GitSyncError::GixOpenError { message }),
            Ok(r) => r,
        };
        match backend::fetch_origin(&repo) {
            Err(message) => return Err(GitSyncError::FetchFailed { message }),
            Ok(_) => (),
        }
        let branch = match &self.branch {
            Some(b) => b.clone(),
            None => match backend::head_branch_name(&repo) {
                Some(b) => b,
                None => return Err(
                    GitSyncError::GenericError {
                        message: String::from_str("HEAD is not on a branch"),
                    },
                ),
            },
        };
        let local = match backend::head_commit_id(&repo) {
            Err(message) => return Err(GitSyncError::GenericError { message }),
            Ok(id) => id,
        };
        let remote_tip = backend::remote_tracking_tip(&repo, &branch);
        let base = match &remote_tip {
            Some(tip) => backend::merge_base_id(&repo, &local, tip),
            None => None,
        };
        match classify_merge(&local, &remote_tip, &base) {
            MergeOutcome::UpToDate => Ok(()),
            MergeOutcome::Diverged => Err(GitSyncError::FastForwardMergeNotPossible),
            MergeOutcome::FastForwardable { target } => {
                match backend::update_branch_ref(&repo, &branch, &target) {
                    Err(message) => return Err(GitSyncError::RefUpdateFailed { message }),
                    Ok(_) => (),
                }
                match backend::point_head_at_branch(&repo, &branch) {
                    Err(message) => return Err(GitSyncError::RefUpdateFailed { message }),
                    Ok(_) => (),
                }
                match backend::force_checkout_head(&repo) {
                    Err(message) => Err(GitSyncError::CheckoutFailed { message }),
                    Ok(_) => Ok(()),
                }
            },
        }
    }
}

impl Default for GitSync {
    /// An empty configuration: no remote, no directory, no branch, no
    /// credentials. Callers fill in `repo` and `dir` before use.
    fn default() -> (r: Self)
        ensures
            r.repo@ == Seq::<char>::empty(),
            r.dir@ == Seq::<char>::empty(),
            r.branch is None,
            r.username is None,
            r.passphrase is None,
            r.private_key is None,
    {
        GitSync {
            repo: String::new(),
            dir: String::new(),
            branch: None,
            username: None,
            passphrase: None,
            private_key: None,
        }
    }
}

} // verus!
