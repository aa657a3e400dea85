//! The trusted boundary around the repository library: declarations of its
//! opaque types and one thin wrapper per call the collector makes. Every
//! contract here is believed, not proved; each doc comment names the
//! outside function relied on.

use crate::structs::Oid;
use crate::structs::RefKind;
use vstd::prelude::*;

verus! {

#[verifier::external_type_specification]
#[verifier::external_body]
pub struct ExRepository(git2::Repository);

#[verifier::external_type_specification]
#[verifier::external_body]
pub struct ExReference<'repo>(git2::Reference<'repo>);

#[verifier::external_type_specification]
#[verifier::external_body]
pub struct ExConfig(git2::Config);

#[verifier::external_type_specification]
#[verifier::external_body]
pub struct ExGitError(git2::Error);

/// Relies on git2::Repository::open: opens the repository at the given
/// path, or fails.
#[verifier::external_body]
pub(crate) fn repo_open(path: &str) -> (r: Result<git2::Repository, git2::Error>) {
    git2::Repository::open(path)
}

/// Relies on git2::Repository::head_detached: whether HEAD points directly
/// at a commit instead of at a branch.
#[verifier::external_body]
pub(crate) fn repo_head_detached(repo: &git2::Repository) -> (r: Result<bool, git2::Error>) {
    repo.head_detached()
}

/// Relies on git2::Repository::find_reference: looks the named reference
/// up, failing when it does not exist.
#[verifier::external_body]
pub(crate) fn find_reference<'r>(repo: &'r git2::Repository, name: &str) -> (r: Result<
    git2::Reference<'r>,
    git2::Error,
>) {
    repo.find_reference(name)
}

/// Relies on git2::Reference::kind: tells the reference's kind apart; a
/// reference of no known kind yields `RefKind::Unknown`.
#[verifier::external_body]
pub(crate) fn reference_kind(r: &git2::Reference<'_>) -> (k: RefKind) {
    match r.kind() {
        None => RefKind::Unknown,
        Some(git2::ReferenceType::Symbolic) => RefKind::Symbolic,
        Some(git2::ReferenceType::Direct) => RefKind::Direct,
    }
}

/// Relies on git2::Reference::symbolic_target: the full name of the
/// reference a symbolic reference points at, absent for a direct reference
/// or a name that is not UTF-8.
#[verifier::external_body]
pub(crate) fn reference_symbolic_target(r: &git2::Reference<'_>) -> (t: Option<String>) {
    match r.symbolic_target() {
        Ok(t) => t.map(String::from),
        Err(_) => None,
    }
}

/// Relies on git2::Reference::resolve: follows a chain of symbolic
/// references iteratively until a direct one is reached.
#[verifier::external_body]
pub(crate) fn reference_resolve<'r>(r: &git2::Reference<'r>) -> (res: Result<
    git2::Reference<'r>,
    git2::Error,
>) {
    r.resolve()
}

/// Relies on git2::Reference::target and git2::Oid::as_bytes: the direct
/// target id as its 20 raw bytes, absent for a symbolic reference.
#[verifier::external_body]
pub(crate) fn reference_target(r: &git2::Reference<'_>) -> (t: Option<Oid>)
    ensures
        t matches Some(o) ==> o.wf(),
{
    r.target().map(|o| Oid { bytes: o.as_bytes().to_vec() })
}

/// Relies on git2::Reference::name: the reference's own full name, absent
/// when it is not UTF-8.
#[verifier::external_body]
pub(crate) fn reference_name_string(r: &git2::Reference<'_>) -> (n: Option<String>) {
    match r.name() {
        Ok(n) => Some(String::from(n)),
        Err(_) => None,
    }
}

/// Relies on git2::Repository::branch_upstream_name and git2::Buf::as_str:
/// the name of the upstream tracking reference configured for the given
/// local branch name; the inner option is absent when that name is not
/// UTF-8.
#[verifier::external_body]
pub(crate) fn branch_upstream_name(repo: &git2::Repository, refname: &str) -> (r: Result<
    Option<String>,
    git2::Error,
>) {
    let buf = repo.branch_upstream_name(refname)?;
    Ok(match buf.as_str() {
        Ok(s) => Some(String::from(s)),
        Err(_) => None,
    })
}

/// Relies on git2::Repository::graph_ahead_behind and git2::Oid::from_bytes:
/// the counts of commits unique to each side, relative to the merge base of
/// the two ids.
#[verifier::external_body]
pub(crate) fn graph_ahead_behind_raw(
    repo: &git2::Repository,
    local: &Oid,
    upstream: &Oid,
) -> (r: Result<(usize, usize), git2::Error>)
    requires
        local.wf(),
        upstream.wf(),
{
    let l = git2::Oid::from_bytes(&local.bytes)?;
    let u = git2::Oid::from_bytes(&upstream.bytes)?;
    repo.graph_ahead_behind(l, u)
}

/// Relies on git2::Repository::config: the repository's merged
/// configuration, repository-local layered over global.
#[verifier::external_body]
pub(crate) fn repo_config(repo: &git2::Repository) -> (r: Result<git2::Config, git2::Error>) {
    repo.config()
}

/// Relies on git2::Config::snapshot: a consistent read-only snapshot of the
/// configuration's current state.
#[verifier::external_body]
pub(crate) fn config_snapshot(config: &mut git2::Config) -> (r: Result<
    git2::Config,
    git2::Error,
>) {
    config.snapshot()
}

/// Relies on git2::Config::get_bool: the boolean stored under the given
/// key; an error when the key is absent or its value is not a well-formed
/// boolean.
#[verifier::external_body]
pub(crate) fn config_get_bool(config: &git2::Config, name: &str) -> (r: Result<
    bool,
    git2::Error,
>) {
    config.get_bool(name)
}

/// Relies on git2::Repository::statuses with git2::StatusOptions: every
/// scanned path's status bit-set under the given enumeration flags, in the
/// enumeration's order; ignored and unreadable paths are always excluded.
#[verifier::external_body]
pub(crate) fn statuses_bits(
    repo: &git2::Repository,
    workdir: bool,
    no_refresh: bool,
    update_index: bool,
    exclude_submodules: bool,
    include_untracked: bool,
) -> (r: Result<Vec<u32>, git2::Error>) {
    let mut opts = git2::StatusOptions::new();
    opts.show(if workdir { git2::StatusShow::IndexAndWorkdir } else { git2::StatusShow::Index });
    opts.no_refresh(no_refresh).update_index(update_index);
    opts.exclude_submodules(exclude_submodules).include_untracked(include_untracked);
    opts.include_ignored(false).include_unreadable(false);
    let statuses = repo.statuses(Some(&mut opts))?;
    Ok(statuses.iter().map(|e| e.status().bits()).collect())
}

/// Relies on git2::Error::message: the failure's display text.
#[verifier::external_body]
pub(crate) fn git_error_message(e: &git2::Error) -> (m: String) {
    String::from(e.message())
}

/// Relies on std::path::Path::exists: whether the path points at an entity
/// that exists on disk.
#[verifier::external_body]
pub(crate) fn path_exists(p: &str) -> (r: bool) {
    std::path::Path::new(p).exists()
}

/// Relies on std::path::Path::ancestors: the path and each of its
/// ancestors, in order from most to least specific; the first entry is the
/// path itself, unchanged.
#[verifier::external_body]
pub(crate) fn ancestors_of(p: &str) -> (r: Vec<String>)
    ensures
        r@.len() >= 1,
        r@[0]@ == p@,
{
    std::path::Path::new(p).ancestors().map(|a| a.to_string_lossy().into_owned()).collect()
}

} // verus!
