//! The boundary to the version-control backend.
//!
//! Everything the reconciliation engine knows about disk and network state
//! arrives through the functions of this module. Each wrapper makes one
//! backend operation and hands back plain values; since every result
//! depends on the state of the filesystem, the repository or the network,
//! the wrappers promise nothing about the values themselves — the verified
//! callers state what holds of every possible outcome.

use vstd::prelude::*;

use crate::state::OriginRemote;

verus! {

#[verifier::external_type_specification]
#[verifier::external_body]
pub struct ExRepository(gix::Repository);

#[verifier::external_type_specification]
#[verifier::external_body]
pub struct ExUrl(gix::Url);

#[verifier::external_type_specification]
#[verifier::external_body]
pub struct ExPrepareFetch(gix::clone::PrepareFetch);

#[verifier::external_type_specification]
#[verifier::external_body]
pub struct ExPrepareCheckout(gix::clone::PrepareCheckout);

/// Relies on std::path::Path::exists: whether the managed path exists on
/// disk at this moment.
#[verifier::external_body]
pub(crate) fn path_exists(dir: &String) -> (r: bool) {
    std::path::Path::new(dir.as_str()).exists()
}

/// Relies on gix::open and
/// gix::Repository::committer_or_set_generic_fallback: opens the
/// repository at `dir` — with a generic committer identity as fallback,
/// so reference transactions can always be logged — or reports the
/// backend's failure as a string.
#[verifier::external_body]
pub(crate) fn open_repository(dir: &String) -> (r: Result<gix::Repository, String>) {
    let mut repo = gix::open(dir.as_str()).map_err(|e| e.to_string())?;
    repo.committer_or_set_generic_fallback().map_err(|e| e.to_string())?;
    Ok(repo)
}

/// Relies on gix::Repository::find_remote and gix::Remote::url: what the
/// repository's "origin" remote holds, as one of the three cases the
/// remote validator distinguishes.
#[verifier::external_body]
pub(crate) fn origin_remote_state(repo: &gix::Repository) -> (r: OriginRemote) {
    match repo.find_remote("origin") {
        Err(_) => OriginRemote::Missing,
        Ok(remote) => match remote.url(gix::remote::Direction::Fetch) {
            None => OriginRemote::Unset,
            Some(url) => OriginRemote::Configured { url: url.to_string() },
        },
    }
}

/// Relies on gix::url::parse: parses the configured remote URL, or
/// reports the parse failure as a string.
#[verifier::external_body]
pub(crate) fn parse_remote_url(url: &String) -> (r: Result<gix::Url, String>) {
    gix::url::parse(url.as_str()).map_err(|e| e.to_string())
}

/// Relies on gix::prepare_clone and gix::clone::PrepareFetch::with_ref_name:
/// prepares a clone of `url` into `dir` (creating the directory), tracking
/// `branch` when one is named and the remote's default branch otherwise.
#[verifier::external_body]
pub(crate) fn prepare_clone_into(url: gix::Url, dir: &String, branch: &Option<String>) -> (r:
    Result<gix::clone::PrepareFetch, String>) {
    let prepared = match gix::prepare_clone(url, dir.as_str()) {
        Ok(p) => p,
        Err(e) => return Err(e.to_string()),
    };
    prepared.with_ref_name(branch.as_deref()).map_err(|e| e.to_string())
}

/// Relies on gix::clone::PrepareFetch::fetch_then_checkout: performs the
/// fetch stage of the clone and hands back the prepared checkout.
#[verifier::external_body]
pub(crate) fn clone_fetch(prepared: gix::clone::PrepareFetch) -> (r: Result<
    gix::clone::PrepareCheckout,
    String,
>) {
    let mut prepared = prepared;
    match prepared.fetch_then_checkout(gix::progress::Discard, &gix::interrupt::IS_INTERRUPTED) {
        Ok((checkout, _outcome)) => Ok(checkout),
        Err(e) => Err(e.to_string()),
    }
}

/// Relies on gix::clone::PrepareCheckout::main_worktree: materializes the
/// working tree of the fresh clone.
#[verifier::external_body]
pub(crate) fn clone_checkout(checkout: gix::clone::PrepareCheckout) -> (r: Result<(), String>) {
    let mut checkout = checkout;
    match checkout.main_worktree(gix::progress::Discard, &gix::interrupt::IS_INTERRUPTED) {
        Ok((_repo, _outcome)) => Ok(()),
        Err(e) => Err(e.to_string()),
    }
}

/// Relies on gix::Repository::status and gix::status::Platform::into_iter:
/// whether the status of the working tree — untracked files included,
/// ignored files excluded — reported no item at all. `None` when the
/// status could not be computed.
#[verifier::external_body]
pub(crate) fn worktree_status_empty(repo: &gix::Repository) -> (r: Option<bool>) {
    let platform = repo.status(gix::progress::Discard).ok()?;
    let patterns: Vec<gix::bstr::BString> = Vec::new();
    let mut iter = platform.into_iter(patterns).ok()?;
    match iter.next() {
        None => Some(true),
        Some(Ok(_item)) => Some(false),
        Some(Err(_)) => None,
    }
}

/// Relies on gix::Repository::find_remote, gix::Remote::connect,
/// gix::remote::Connection::prepare_fetch and its receive: fetches the
/// "origin" remote's branches into the repository's remote-tracking
/// references.
#[verifier::external_body]
pub(crate) fn fetch_origin(repo: &gix::Repository) -> (r: Result<(), String>) {
    let remote = repo.find_remote("origin").map_err(|e| e.to_string())?;
    let connection = remote.connect(gix::remote::Direction::Fetch).map_err(|e| e.to_string())?;
    let prepared = connection
        .prepare_fetch(gix::progress::Discard, Default::default())
        .map_err(|e| e.to_string())?;
    prepared
        .receive(gix::progress::Discard, &gix::interrupt::IS_INTERRUPTED)
        .map_err(|e| e.to_string())?;
    Ok(())
}

/// Relies on gix::Repository::head_id: the commit the repository's HEAD
/// points at, as raw identifier bytes.
#[verifier::external_body]
pub(crate) fn head_commit_id(repo: &gix::Repository) -> (r: Result<Vec<u8>, String>) {
    match repo.head_id() {
        Ok(id) => Ok(id.detach().as_slice().to_vec()),
        Err(e) => Err(e.to_string()),
    }
}

/// Relies on gix::Repository::head_name: the short name of the branch the
/// repository's HEAD is on, if it is on one.
#[verifier::external_body]
pub(crate) fn head_branch_name(repo: &gix::Repository) -> (r: Option<String>) {
    match repo.head_name() {
        Ok(Some(name)) => Some(name.shorten().to_string()),
        _ => None,
    }
}

/// Relies on gix::Repository::find_reference and
/// gix::Reference::peel_to_id: the commit the remote-tracking
/// reference of `branch` points at after a fetch, if that reference
/// exists.
#[verifier::external_body]
pub(crate) fn remote_tracking_tip(repo: &gix::Repository, branch: &String) -> (r: Option<Vec<u8>>) {
    let mut reference = repo.find_reference(&format!("refs/remotes/origin/{branch}")).ok()?;
    let id = reference.peel_to_id().ok()?;
    Some(id.detach().as_slice().to_vec())
}

/// Relies on gix::Repository::merge_base: the best common ancestor of the
/// two commits, or `None` when they share none or either identifier is
/// not a commit of this repository.
#[verifier::external_body]
pub(crate) fn merge_base_id(repo: &gix::Repository, one: &Vec<u8>, two: &Vec<u8>) -> (r: Option<
    Vec<u8>,
>) {
    let one = gix::hash::ObjectId::try_from(one.as_slice()).ok()?;
    let two = gix::hash::ObjectId::try_from(two.as_slice()).ok()?;
    let base = repo.merge_base(one, two).ok()?;
    Some(base.detach().as_slice().to_vec())
}

/// Relies on gix::Repository::reference: moves (or creates) the local
/// branch reference to the given commit, writing a reference log entry.
#[verifier::external_body]
pub(crate) fn update_branch_ref(repo: &gix::Repository, branch: &String, target: &Vec<u8>) -> (r:
    Result<(), String>) {
    let id = gix::hash::ObjectId::try_from(target.as_slice()).map_err(|e| e.to_string())?;
    repo.reference(
        format!("refs/heads/{branch}"),
        id,
        gix::refs::transaction::PreviousValue::Any,
        "fast-forward",
    ).map_err(|e| e.to_string())?;
    Ok(())
}

/// Relies on gix::Repository::edit_reference: points HEAD at the given
/// branch symbolically, so the working tree follows that branch.
#[verifier::external_body]
pub(crate) fn point_head_at_branch(repo: &gix::Repository, branch: &String) -> (r: Result<
    (),
    String,
>) {
    let name: gix::refs::FullName =
        format!("refs/heads/{branch}").try_into().map_err(
            |e: gix::validate::reference::name::Error| e.to_string(),
        )?;
    let head: gix::refs::FullName = "HEAD".try_into().map_err(
        |e: gix::validate::reference::name::Error| e.to_string(),
    )?;
    let change = gix::refs::transaction::Change::Update {
        log: Default::default(),
        expected: gix::refs::transaction::PreviousValue::Any,
        new: gix::refs::Target::Symbolic(name),
    };
    let edit = gix::refs::transaction::RefEdit { change, name: head, deref: false };
    repo.edit_reference(edit).map(|_edits| ()).map_err(|e| e.to_string())
}

/// Relies on gix::Repository::index_from_tree and
/// gix_worktree_state::checkout: forces the working tree and index to
/// match the tree of the commit HEAD points at.
#[verifier::external_body]
pub(crate) fn force_checkout_head(repo: &gix::Repository) -> (r: Result<(), String>) {
    let workdir = match repo.workdir() {
        Some(d) => d.to_owned(),
        None => return Err(String::from("repository has no working tree")),
    };
    (|| -> gix::Result<()> {
        let tree_id = repo.head_tree_id()?;
        let mut index = repo.index_from_tree(&tree_id)?;
        let objects = repo.objects.clone().into_arc().map_err(gix::error::Error::from_error)?;
        let options = repo.checkout_options(Default::default())?;
        let quiet = &gix::progress::Discard;
        let stop = &gix::interrupt::IS_INTERRUPTED;
        gix_worktree_state::checkout(&mut index, workdir, objects, quiet, quiet, stop, options)?;
        index.write(Default::default())?;
        Ok(())
    })().map_err(|e| e.to_string())
}

} // verus!
