//! The decision kernel on concrete values: directory evaluation, merge
//! classification, the worktree guard, and error rendering.

use gitsync::errors::GitSyncError;
use gitsync::state::{
    bytes_equal, classify_merge, evaluate_directory, worktree_clean_decision, DirectoryState,
    MergeOutcome, OriginRemote,
};
use gitsync::GitSync;

fn s(text: &str) -> String {
    String::from(text)
}

#[test]
fn absent_path_asks_for_a_clone() {
    let r = evaluate_directory(&DirectoryState::Absent, &s("https://example.com/r.git"), &s("/tmp/r"));
    assert_eq!(r, Ok(false));
}

#[test]
fn matching_remote_is_accepted() {
    let state = DirectoryState::Repository {
        remote: OriginRemote::Configured { url: s("https://example.com/r.git") },
    };
    let r = evaluate_directory(&state, &s("https://example.com/r.git"), &s("/tmp/r"));
    assert_eq!(r, Ok(true));
}

#[test]
fn url_comparison_is_exact() {
    // No normalization: a trailing slash is a different remote.
    let state = DirectoryState::Repository {
        remote: OriginRemote::Configured { url: s("https://example.com/r.git/") },
    };
    let r = evaluate_directory(&state, &s("https://example.com/r.git"), &s("/tmp/r"));
    assert_eq!(
        r,
        Err(GitSyncError::IncorrectGitRemotes {
            dir: s("/tmp/r"),
            expected: s("https://example.com/r.git"),
            actual: s("https://example.com/r.git/"),
        })
    );
}

#[test]
fn foreign_remote_is_reported_with_both_urls() {
    let state = DirectoryState::Repository {
        remote: OriginRemote::Configured { url: s("other-url") },
    };
    let r = evaluate_directory(&state, &s("expected-url"), &s("/tmp/r"));
    assert_eq!(
        r,
        Err(GitSyncError::IncorrectGitRemotes {
            dir: s("/tmp/r"),
            expected: s("expected-url"),
            actual: s("other-url"),
        })
    );
}

#[test]
fn missing_origin_is_a_mismatch() {
    let state = DirectoryState::Repository { remote: OriginRemote::Missing };
    let r = evaluate_directory(&state, &s("expected-url"), &s("/tmp/r"));
    assert_eq!(
        r,
        Err(GitSyncError::IncorrectGitRemotes {
            dir: s("/tmp/r"),
            expected: s("expected-url"),
            actual: s("No origin remote"),
        })
    );
}

#[test]
fn url_less_origin_is_a_mismatch() {
    let state = DirectoryState::Repository { remote: OriginRemote::Unset };
    let r = evaluate_directory(&state, &s("expected-url"), &s("/tmp/r"));
    assert_eq!(
        r,
        Err(GitSyncError::IncorrectGitRemotes {
            dir: s("/tmp/r"),
            expected: s("expected-url"),
            actual: s(""),
        })
    );
}

#[test]
fn unopenable_directory_is_an_open_error() {
    let state = DirectoryState::NotARepository { message: s("not a repository") };
    let r = evaluate_directory(&state, &s("expected-url"), &s("/tmp/r"));
    assert_eq!(r, Err(GitSyncError::GixOpenError { message: s("not a repository") }));
}

#[test]
fn identical_tips_are_up_to_date() {
    let tip = vec![0xABu8, 1, 2, 3];
    let r = classify_merge(&tip, &Some(tip.clone()), &Some(tip.clone()));
    assert!(matches!(r, MergeOutcome::UpToDate));
}

#[test]
fn ancestor_local_tip_fast_forwards_to_remote_tip() {
    let local = vec![1u8, 1, 1];
    let remote = vec![2u8, 2, 2];
    let r = classify_merge(&local, &Some(remote.clone()), &Some(local.clone()));
    match r {
        MergeOutcome::FastForwardable { target } => assert_eq!(target, remote),
        other => panic!("expected a fast-forward, got {:?}", other),
    }
}

#[test]
fn unrelated_merge_base_is_divergence() {
    let local = vec![1u8];
    let remote = vec![2u8];
    let base = vec![3u8];
    let r = classify_merge(&local, &Some(remote), &Some(base));
    assert!(matches!(r, MergeOutcome::Diverged));
}

#[test]
fn missing_merge_base_is_divergence() {
    let local = vec![1u8];
    let remote = vec![2u8];
    let r = classify_merge(&local, &Some(remote), &None);
    assert!(matches!(r, MergeOutcome::Diverged));
}

#[test]
fn vanished_remote_branch_is_divergence() {
    let local = vec![1u8];
    let r = classify_merge(&local, &None, &None);
    assert!(matches!(r, MergeOutcome::Diverged));
}

#[test]
fn guard_accepts_only_a_positive_clean_report() {
    assert!(worktree_clean_decision(&Some(true)));
    assert!(!worktree_clean_decision(&Some(false)));
    assert!(!worktree_clean_decision(&None));
}

#[test]
fn byte_comparison_is_exact() {
    assert!(bytes_equal(&vec![1u8, 2, 3], &vec![1u8, 2, 3]));
    assert!(!bytes_equal(&vec![1u8, 2, 3], &vec![1u8, 2]));
    assert!(!bytes_equal(&vec![1u8, 2, 3], &vec![1u8, 2, 4]));
    assert!(bytes_equal(&Vec::new(), &Vec::new()));
}

#[test]
fn mismatch_description_interpolates_all_fields() {
    let e = GitSyncError::IncorrectGitRemotes {
        dir: s("/srv/clone"),
        expected: s("expected-url"),
        actual: s("other-url"),
    };
    assert_eq!(
        e.describe(),
        "A directory already exists at /srv/clone and is a Git repository, \
         but we expected the remote to be expected-url and got other-url."
    );
}

#[test]
fn guard_and_divergence_descriptions_are_fixed() {
    assert_eq!(
        GitSyncError::WorkTreeNotClean.describe(),
        "The worktree isn't clean. Refusing to sync"
    );
    assert_eq!(
        GitSyncError::FastForwardMergeNotPossible.describe(),
        "Can't fast-forward merge"
    );
}

#[test]
fn backend_descriptions_carry_the_message() {
    let e = GitSyncError::GixOpenError { message: s("boom") };
    assert_eq!(e.describe(), "There was an error opening the Git repository: boom");
    let e = GitSyncError::FetchFailed { message: s("no route") };
    assert_eq!(e.describe(), "There was an error fetching from the remote: no route");
    let e = GitSyncError::GixParseError { message: s("empty") };
    assert_eq!(e.describe(), "There was an error parsing the URL: empty");
    let e = GitSyncError::GixCloneError { message: s("a") };
    assert_eq!(e.describe(), "There was an error cloning the repository: a");
    let e = GitSyncError::GixCloneFetchError { message: s("b") };
    assert_eq!(e.describe(), "There was an error fetching the repository: b");
    let e = GitSyncError::GixCloneCheckoutError { message: s("c") };
    assert_eq!(e.describe(), "There was an error checking out the repository: c");
    let e = GitSyncError::RefUpdateFailed { message: s("d") };
    assert_eq!(e.describe(), "There was an error moving the branch reference: d");
    let e = GitSyncError::CheckoutFailed { message: s("e") };
    assert_eq!(e.describe(), "There was an error updating the working tree: e");
    let e = GitSyncError::GenericError { message: s("f") };
    assert_eq!(e.describe(), "There was an IO error: f");
}

#[test]
fn default_target_is_empty() {
    let t = GitSync::default();
    assert_eq!(t.repo, "");
    assert_eq!(t.dir, "");
    assert!(t.branch.is_none());
    assert!(t.username.is_none());
    assert!(t.passphrase.is_none());
    assert!(t.private_key.is_none());
}
