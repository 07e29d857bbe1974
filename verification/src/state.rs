use vstd::prelude::*;
use vstd::string::StringExecFns;

use crate::errors::GitSyncError;

verus! {

/// What the directory inspector found at the managed path. This is derived
/// from disk on every call and never cached.
#[derive(Debug, Clone, PartialEq, Eq)]
pub enum DirectoryState {
    /// The path does not exist on disk.
    Absent,
    /// The path exists but could not be opened as a repository; `message`
    /// is the backend's account of the failure.
    NotARepository { message: String },
    /// The path is a repository root; `remote` is what its "origin" remote
    /// holds.
    Repository { remote: OriginRemote },
}

/// The "origin" remote of a discovered repository.
#[derive(Debug, Clone, PartialEq, Eq)]
pub enum OriginRemote {
    /// The repository has no remote named "origin".
    Missing,
    /// The remote exists but carries no fetch URL.
    Unset,
    /// The fetch URL the remote is configured with.
    Configured { url: String },
}

/// The relationship between the local tip and the fetched remote tip,
/// computed fresh on every sync call.
#[derive(Debug, Clone, PartialEq, Eq)]
pub enum MergeOutcome {
    /// Local and remote tips are identical; nothing to do.
    UpToDate,
    /// The local tip is a strict ancestor of the remote tip; updating the
    /// local branch to `target` is a pure fast-forward.
    FastForwardable { target: Vec<u8> },
    /// The remote tip is absent or neither tip is an ancestor of the
    /// other; no update may be applied.
    Diverged,
}

/// The decision that follows from an inspected directory: mathematical
/// counterpart of [`evaluate_directory`].
pub enum CloneEvaluation {
    /// A valid clone of the expected remote is already present.
    Present,
    /// Nothing is there yet; a fresh clone is required.
    CloneNeeded,
    /// The path exists but is not a repository; carries the backend's
    /// message.
    RejectedNotARepository { message: Seq<char> },
    /// The path is a repository of some other remote; carries the remote
    /// URL that was actually found, as it is reported to the caller.
    RejectedWrongRemote { actual: Seq<char> },
}

/// How an inspected directory is judged against the expected remote URL:
/// an absent path invites a clone; a repository is accepted exactly when
/// its "origin" URL equals the expected URL character for character (no
/// normalization); everything else is rejected and left untouched.
pub open spec fn spec_evaluate_directory(state: DirectoryState, expected: Seq<char>) -> CloneEvaluation {
    match state {
        DirectoryState::Absent => CloneEvaluation::CloneNeeded,
        DirectoryState::NotARepository { message } => CloneEvaluation::RejectedNotARepository {
            message: message@,
        },
        DirectoryState::Repository { remote } => match remote {
            OriginRemote::Missing => CloneEvaluation::RejectedWrongRemote {
                actual: "No origin remote"@,
            },
            OriginRemote::Unset => CloneEvaluation::RejectedWrongRemote { actual: ""@ },
            OriginRemote::Configured { url } => if url@ == expected {
                CloneEvaluation::Present
            } else {
                CloneEvaluation::RejectedWrongRemote { actual: url@ }
            },
        },
    }
}

/// A directory state that is a valid clone of `expected`: a repository
/// whose "origin" remote is configured with exactly that URL.
pub open spec fn spec_is_valid_clone(state: DirectoryState, expected: Seq<char>) -> bool {
    state matches DirectoryState::Repository {
        remote: OriginRemote::Configured { url },
    } && url@ == expected
}

/// The remote validator: given what the inspector found and the remote URL
/// this target expects, decide whether a valid clone is already present
/// (`Ok(true)`), a clone is still needed (`Ok(false)`), or the directory
/// must be rejected and left untouched (`Err`). A mismatched remote is
/// reported with both the expected and the actually-found URL and is never
/// auto-corrected.
pub fn evaluate_directory(state: &DirectoryState, expected: &String, dir: &String) -> (r: Result<
    bool,
    GitSyncError,
>)
    ensures
        match spec_evaluate_directory(*state, expected@) {
            CloneEvaluation::Present => r == Ok::<bool, GitSyncError>(true),
            CloneEvaluation::CloneNeeded => r == Ok::<bool, GitSyncError>(false),
            CloneEvaluation::RejectedNotARepository { message } => (r matches Err(
                GitSyncError::GixOpenError { message: m },
            ) && m@ == message),
            CloneEvaluation::RejectedWrongRemote { actual } => (r matches Err(
                GitSyncError::IncorrectGitRemotes { dir: d, expected: e, actual: a },
            ) && d@ == dir@ && e@ == expected@ && a@ == actual),
        },
{
    match state {
        DirectoryState::Absent => Ok(false),
        DirectoryState::NotARepository { message } => Err(
            GitSyncError::GixOpenError { message: message.clone() },
        ),
        DirectoryState::Repository { remote } => match remote {
            OriginRemote::Missing => Err(
                GitSyncError::IncorrectGitRemotes {
                    dir: dir.clone(),
                    expected: expected.clone(),
                    actual: String::from_str("No origin remote"),
                },
            ),
            OriginRemote::Unset => Err(
                GitSyncError::IncorrectGitRemotes {
                    dir: dir.clone(),
                    expected: expected.clone(),
                    actual: String::from_str(""),
                },
            ),
            OriginRemote::Configured { url } => {
                if *url == *expected {
                    Ok(true)
                } else {
                    Err(
                        GitSyncError::IncorrectGitRemotes {
                            dir: dir.clone(),
                            expected: expected.clone(),
                            actual: url.clone(),
                        },
                    )
                }
            },
        },
    }
}

/// Mathematical counterpart of [`MergeOutcome`], over byte sequences.
pub enum SpecMergeOutcome {
    UpToDate,
    FastForward { target: Seq<u8> },
    Diverged,
}

/// How local and remote tips are classified. `remote` is the fetched tip
/// of the tracked branch (`None` when that branch has no remote ref after
/// the fetch, which counts as diverged), and `base` is the merge base of
/// the two tips (`None` when they share no history). Identical tips are up
/// to date; a local tip that is the merge base is strictly behind, so the
/// remote tip may be fast-forwarded to; anything else is divergence.
pub open spec fn spec_classify_merge(
    local: Seq<u8>,
    remote: Option<Seq<u8>>,
    base: Option<Seq<u8>>,
) -> SpecMergeOutcome {
    match remote {
        Option::None => SpecMergeOutcome::Diverged,
        Option::Some(rt) => if rt == local {
            SpecMergeOutcome::UpToDate
        } else if base == Option::Some(local) {
            SpecMergeOutcome::FastForward { target: rt }
        } else {
            SpecMergeOutcome::Diverged
        },
    }
}

/// The byte sequence held by an optional commit identifier.
pub open spec fn tip_view(v: Option<Vec<u8>>) -> Option<Seq<u8>> {
    match v {
        Option::Some(x) => Option::Some(x@),
        Option::None => Option::None,
    }
}

/// Whether the executable outcome `r` denotes the mathematical outcome `s`.
pub open spec fn outcome_denotes(r: MergeOutcome, s: SpecMergeOutcome) -> bool {
    match s {
        SpecMergeOutcome::UpToDate => r is UpToDate,
        SpecMergeOutcome::FastForward { target } => (r matches MergeOutcome::FastForwardable {
            target: t,
        } && t@ == target),
        SpecMergeOutcome::Diverged => r is Diverged,
    }
}

/// Compare two commit identifiers byte for byte.
pub fn bytes_equal(a: &Vec<u8>, b: &Vec<u8>) -> (r: bool)
    ensures
        r == (a@ == b@),
{
    if a.len() != b.len() {
        return false;
    }
    let mut i: usize = 0;
    while i < a.len()
        invariant
            0 <= i <= a@.len(),
            a@.len() == b@.len(),
            forall|j: int| 0 <= j < i ==> a@[j] == b@[j],
        decreases a@.len() - i,
    {
        if a[i] != b[i] {
            return false;
        }
        i += 1;
    }
    proof {
        assert(a@ =~= b@);
    }
    true
}

/// The classification step of the fetch-and-fast-forward engine, as a
/// total function of the two tips and their merge base.
pub fn classify_merge(local: &Vec<u8>, remote: &Option<Vec<u8>>, base: &Option<Vec<u8>>) -> (r:
    MergeOutcome)
    ensures
        outcome_denotes(r, spec_classify_merge(local@, tip_view(*remote), tip_view(*base))),
{
    match remote {
        Option::None => MergeOutcome::Diverged,
        Option::Some(rt) => {
            if bytes_equal(rt, local) {
                MergeOutcome::UpToDate
            } else {
                match base {
                    Option::Some(b) => {
                        if bytes_equal(b, local) {
                            MergeOutcome::FastForwardable {
                                target: vstd::slice::slice_to_vec(rt.as_slice()),
                            }
                        } else {
                            MergeOutcome::Diverged
                        }
                    },
                    Option::None => MergeOutcome::Diverged,
                }
            }
        },
    }
}

/// The worktree guard's fail-closed reading of a status probe: the tree
/// counts as clean only when the backend positively reported an empty
/// status; an error while querying counts as "not clean".
pub fn worktree_clean_decision(probe: &Option<bool>) -> (r: bool)
    ensures
        r == (*probe == Option::Some(true)),
{
    match probe {
        Option::Some(true) => true,
        _ => false,
    }
}

/// Law: bootstrap is idempotent. A directory that is already a valid
/// clone of the expected remote evaluates to `Present`, so a second
/// bootstrap of the same target asks for no clone, raises no error, and
/// performs no write.
pub proof fn lemma_bootstrap_idempotent(state: DirectoryState, expected: Seq<char>)
    requires
        spec_is_valid_clone(state, expected),
    ensures
        spec_evaluate_directory(state, expected) == CloneEvaluation::Present,
{
}

/// Law: no foreign directory is adopted. A repository whose "origin" URL
/// differs from the expected URL is rejected, and the rejection reports
/// exactly the URL that was found.
pub proof fn lemma_foreign_remote_rejected(remote_url: String, expected: Seq<char>)
    requires
        remote_url@ != expected,
    ensures
        spec_evaluate_directory(
            DirectoryState::Repository { remote: OriginRemote::Configured { url: remote_url } },
            expected,
        ) == (CloneEvaluation::RejectedWrongRemote { actual: remote_url@ }),
{
}

/// Law: an absent path invites a clone, and nothing else does: the
/// evaluation asks for a clone exactly when the path does not exist.
pub proof fn lemma_clone_only_on_absence(state: DirectoryState, expected: Seq<char>)
    ensures
        spec_evaluate_directory(state, expected) == CloneEvaluation::CloneNeeded <==> state
            is Absent,
{
}

/// Law: a sync against a tip that equals the remote tip is a no-op: the
/// classification is `UpToDate`, whatever the merge base, so no reference
/// moves and no checkout runs.
pub proof fn lemma_noop_when_current(local: Seq<u8>, base: Option<Seq<u8>>)
    ensures
        spec_classify_merge(local, Option::Some(local), base) == SpecMergeOutcome::UpToDate,
{
}

/// Law: a fast-forward targets exactly the remote tip. When the local tip
/// is the merge base of the two tips and the remote tip is new, the
/// classification orders an update to precisely that remote tip.
pub proof fn lemma_fast_forward_targets_remote_tip(local: Seq<u8>, remote: Seq<u8>)
    requires
        remote != local,
    ensures
        spec_classify_merge(local, Option::Some(remote), Option::Some(local))
            == (SpecMergeOutcome::FastForward { target: remote }),
{
}

/// Law: divergence is rejected. When the tips differ and the local tip is
/// not the merge base — including a vanished remote branch or unrelated
/// histories — the classification is `Diverged` and no update is ordered.
pub proof fn lemma_divergence_rejected(local: Seq<u8>, remote: Option<Seq<u8>>, base: Option<Seq<u8>>)
    requires
        remote matches Option::Some(rt) ==> rt != local,
        base != Option::Some(local),
    ensures
        spec_classify_merge(local, remote, base) == SpecMergeOutcome::Diverged,
{
}

} // verus!
