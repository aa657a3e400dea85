//! The collector itself: repository location, configuration resolution,
//! head resolution, ahead/behind computation, file-status scanning, and the
//! join of the two independent units of work.

use crate::error::Diagnostics;
use crate::error::GitInfoError;
use crate::error::LogError;
use crate::error::MapLog;
use crate::git2_api::ancestors_of;
use crate::git2_api::branch_upstream_name;
use crate::git2_api::config_get_bool;
use crate::git2_api::config_snapshot;
use crate::git2_api::find_reference;
use crate::git2_api::git_error_message;
use crate::git2_api::graph_ahead_behind_raw;
use crate::git2_api::path_exists;
use crate::git2_api::reference_kind;
use crate::git2_api::reference_name_string;
use crate::git2_api::reference_resolve;
use crate::git2_api::reference_symbolic_target;
use crate::git2_api::reference_target;
use crate::git2_api::repo_config;
use crate::git2_api::repo_head_detached;
use crate::git2_api::repo_open;
use crate::git2_api::statuses_bits;
use crate::structs::GetGitInfoOptions;
use crate::structs::GitBranchAheadBehind;
use crate::structs::GitFileStatus;
use crate::structs::GitHeadInfo;
use crate::structs::GitHeadInfoInternal;
use crate::structs::GitOutputOptions;
use crate::structs::Oid;
use crate::structs::RefKind;
use crate::structs::ResolvedOptions;
use crate::util::first_marked;
use crate::util::hex_prefix;
use crate::util::hex_view;
use crate::util::last_part;
use crate::util::last_part_view;
use crate::util::marker_path;
use vstd::prelude::*;

verus! {

/// Wraps a repository-library failure as the generic error kind, keeping
/// its message.
pub fn git_failure(e: git2::Error) -> (r: GitInfoError)
    ensures
        r matches GitInfoError::Git(_),
{
    GitInfoError::Git(git_error_message(&e))
}

// ---------------------------------------------------------------------
// RepoLocator: walk the starting path's ancestors for a repository marker.
// ---------------------------------------------------------------------

/// Tests one directory for the repository marker subdirectory.
fn has_repo_marker(dir: &str) -> bool {
    let marker = marker_path(dir);
    path_exists(marker.as_str())
}

/// Walks the starting path and each of its ancestors, most specific first,
/// and returns the first one holding a repository marker; `None` when no
/// ancestor up to the filesystem root qualifies. Fails only when the
/// starting path itself does not exist.
pub fn git_subfolder(start: &str) -> (r: Result<Option<String>, GitInfoError>)
    ensures
        r matches Err(e) ==> e == GitInfoError::PathNotFound,
{
    if !path_exists(start) {
        return Err(GitInfoError::PathNotFound);
    }
    let ancestors = ancestors_of(start);
    let mut markers: Vec<bool> = Vec::new();
    let mut k: usize = 0;
    while k < ancestors.len()
        invariant
            k <= ancestors@.len(),
            markers@.len() == k,
        decreases ancestors@.len() - k,
    {
        let dir: &String = &ancestors[k];
        markers.push(has_repo_marker(dir.as_str()));
        k = k + 1;
    }
    match first_marked(&markers) {
        Some(i) => {
            let found: &String = &ancestors[i];
            Ok(Some(String::from_str(found.as_str())))
        },
        None => Ok(None),
    }
}

// ---------------------------------------------------------------------
// ConfigResolver: repository configuration overrides the request defaults.
// ---------------------------------------------------------------------

/// The stored override wins when present; otherwise the request's default
/// is retained.
pub fn resolve_flag(stored: Option<bool>, default_value: bool) -> (r: bool)
    ensures
        r == (match stored {
            Some(v) => v,
            None => default_value,
        }),
{
    match stored {
        Some(v) => v,
        None => default_value,
    }
}

/// The namespaced configuration key of one behavior flag: the application
/// name, a dot, the flag's own name.
pub fn config_key(app_name: &str, name: &str) -> (key: String)
    ensures
        key@ == app_name@ + "."@ + name@,
{
    String::from_str(app_name).concat(".").concat(name)
}

/// Looks one namespaced boolean key up in the configuration snapshot; a
/// missing or malformed value leaves the default in force.
fn config_bool_var(
    config: &git2::Config,
    app_name: &str,
    name: &str,
    default_value: bool,
) -> bool {
    let key = config_key(app_name, name);
    let stored = match config_get_bool(config, key.as_str()) {
        Ok(v) => Some(v),
        Err(_) => None,
    };
    resolve_flag(stored, default_value)
}

/// Opens the repository's merged configuration as a read-only snapshot and
/// merges the request's five behavior flags with their stored overrides,
/// each under a boolean key namespaced by the application name. Fails with
/// `ConfigUnavailable` only when the repository itself cannot be opened; a
/// failure reading the configuration is the generic library failure.
pub fn configuration_overrided(
    path: &str,
    git_info_options: &GetGitInfoOptions,
    diag: &Diagnostics,
) -> (r: Result<ResolvedOptions, GitInfoError>)
    ensures
        r matches Err(e) ==> (e == GitInfoError::ConfigUnavailable || e matches GitInfoError::Git(
            _,
        )),
{
    let repo = match repo_open(path) {
        Ok(r) => r,
        Err(_) => return Err(GitInfoError::ConfigUnavailable),
    };
    let mut merged = match repo_config(&repo) {
        Ok(c) => c,
        Err(e) => return Err(git_failure(e)),
    };
    let config = match config_snapshot(&mut merged) {
        Ok(c) => c,
        Err(e) => return Err(git_failure(e)),
    };
    let app = diag.app_name.as_str();
    Ok(
        ResolvedOptions {
            include_submodules: config_bool_var(
                &config,
                app,
                "include-submodules",
                git_info_options.include_submodules,
            ),
            include_untracked: config_bool_var(
                &config,
                app,
                "include-untracked",
                git_info_options.include_untracked,
            ),
            refresh_status: config_bool_var(
                &config,
                app,
                "refresh-status",
                git_info_options.refresh_status,
            ),
            include_ahead_behind: config_bool_var(
                &config,
                app,
                "include-ahead-behind",
                git_info_options.include_ahead_behind,
            ),
            include_workdir_stats: config_bool_var(
                &config,
                app,
                "include-workdir-stats",
                git_info_options.include_workdir_stats,
            ),
        },
    )
}

// ---------------------------------------------------------------------
// HeadResolver: the named reference, its target id, and detachment.
// ---------------------------------------------------------------------

/// How the resolved head is assembled from the reference's kind and the
/// pieces gathered for that kind: a reference of no known kind (an unborn
/// branch's target) yields neither name nor id; a symbolic reference keeps
/// the target's name as gathered and the id that following the chain gave,
/// absent when following failed; a direct reference keeps its own name and
/// target. Detachment passes through untouched, whatever the kind.
pub fn assemble_head(
    kind: RefKind,
    sym_name: Option<String>,
    resolved_oid: Option<Oid>,
    own_name: Option<String>,
    own_oid: Option<Oid>,
    detached: bool,
) -> (h: GitHeadInfoInternal)
    requires
        resolved_oid matches Some(o) ==> o.wf(),
        own_oid matches Some(o) ==> o.wf(),
    ensures
        h.wf(),
        h.detached == detached,
        kind == RefKind::Unknown ==> h.reference_name is None && h.oid is None,
        kind == RefKind::Symbolic ==> h.reference_name == sym_name && h.oid == resolved_oid,
        kind == RefKind::Direct ==> h.reference_name == own_name && h.oid == own_oid,
{
    match kind {
        RefKind::Unknown => GitHeadInfoInternal { reference_name: None, oid: None, detached },
        RefKind::Symbolic => GitHeadInfoInternal {
            reference_name: sym_name,
            oid: resolved_oid,
            detached,
        },
        RefKind::Direct => GitHeadInfoInternal {
            reference_name: own_name,
            oid: own_oid,
            detached,
        },
    }
}

/// Resolves the named reference (normally "HEAD"). Detachment is determined
/// independently first, a failed query defaulting to "not detached"; the
/// reference's kind then decides, through `assemble_head`, which gathered
/// pieces the result keeps — for a symbolic reference the target's name is
/// recorded without following, and the chain is followed separately for the
/// id, a failure there being logged, not escalated. Fails with
/// `ReferenceNotFound` exactly when the named reference does not exist.
pub fn head_info(
    repo: &git2::Repository,
    input_reference_name: &str,
    diag: &Diagnostics,
) -> (r: Result<GitHeadInfoInternal, GitInfoError>)
    ensures
        r matches Err(e) ==> e == GitInfoError::ReferenceNotFound,
        r matches Ok(h) ==> h.wf(),
{
    let detached_answer = match repo_head_detached(repo) {
        Ok(v) => Some(v),
        Err(_) => None,
    };
    let detached = resolve_flag(detached_answer, false);
    let reference = match find_reference(repo, input_reference_name) {
        Ok(r) => r,
        Err(_) => return Err(GitInfoError::ReferenceNotFound),
    };
    let head = match reference_kind(&reference) {
        RefKind::Unknown => assemble_head(RefKind::Unknown, None, None, None, None, detached),
        RefKind::Symbolic => {
            let sym_name = reference_symbolic_target(&reference);
            let resolved_oid = match reference_resolve(&reference) {
                Ok(resolved) => reference_target(&resolved),
                Err(e) => {
                    git_failure(e).log(diag);
                    None
                },
            };
            assemble_head(RefKind::Symbolic, sym_name, resolved_oid, None, None, detached)
        },
        RefKind::Direct => {
            let own_name = reference_name_string(&reference);
            let own_oid = reference_target(&reference);
            assemble_head(RefKind::Direct, None, None, own_name, own_oid, detached)
        },
    };
    Ok(head)
}

impl GitHeadInfo {
    /// Derives the display form: the final path segment of the reference
    /// name and the first 8 hexadecimal characters of the full id.
    pub fn from_internal(val: GitHeadInfoInternal) -> (r: GitHeadInfo)
        requires
            val.wf(),
        ensures
            r.detached == val.detached,
            val.reference_name matches Some(n) ==> (r.reference_short matches Some(s) && s@
                == last_part_view(n@)),
            val.reference_name is None ==> r.reference_short is None,
            val.oid matches Some(o) ==> (r.oid_short matches Some(s) && s@ == hex_view(
                o.bytes@.take(4),
            )),
            val.oid is None ==> r.oid_short is None,
    {
        let reference_short = match val.reference_name {
            Some(v) => Some(String::from_str(last_part(v.as_str()))),
            None => None,
        };
        let oid_short = match val.oid {
            Some(v) => Some(hex_prefix(&v.bytes, 4)),
            None => None,
        };
        GitHeadInfo { reference_short, oid_short, detached: val.detached }
    }
}

// ---------------------------------------------------------------------
// AheadBehindCalculator: divergence from the upstream tracking reference.
// ---------------------------------------------------------------------

/// Whether the resolved head lacks what ahead/behind computation needs: a
/// branch name and a concrete id.
pub open spec fn upstream_inputs_missing(head: Option<GitHeadInfoInternal>) -> bool {
    match head {
        None => true,
        Some(h) => h.reference_name is None || h.oid is None,
    }
}

/// Repackages the commit-graph counts: commits reachable only from the
/// head, then commits reachable only from the upstream.
pub fn ahead_behind_of(counts: (usize, usize)) -> (r: GitBranchAheadBehind)
    ensures
        r.ahead == counts.0,
        r.behind == counts.1,
{
    GitBranchAheadBehind { ahead: counts.0, behind: counts.1 }
}

/// Computes the divergence between the resolved head and its upstream
/// tracking reference. Fails with `NoUpstreamComputable` exactly when the
/// head lacks a branch name or an id (a detached head or an unborn branch);
/// with `NoTrackingBranch` when no upstream is configured; with
/// `NonUtf8TrackingName` when the upstream's name is not text; with
/// `TrackingBranchHasNoTarget` when the upstream has no target id.
pub fn graph_ahead_behind(
    repo: &git2::Repository,
    head: &Option<GitHeadInfoInternal>,
) -> (r: Result<GitBranchAheadBehind, GitInfoError>)
    requires
        (*head) matches Some(h) ==> h.wf(),
    ensures
        (r == Err::<GitBranchAheadBehind, GitInfoError>(GitInfoError::NoUpstreamComputable))
            <==> upstream_inputs_missing(*head),
        r matches Err(e) ==> (e == GitInfoError::NoUpstreamComputable || e == GitInfoError::NoTrackingBranch
            || e == GitInfoError::NonUtf8TrackingName || e == GitInfoError::TrackingBranchHasNoTarget
            || e matches GitInfoError::Git(_)),
{
    let h = match head {
        Some(h) => h,
        None => return Err(GitInfoError::NoUpstreamComputable),
    };
    let name = match &h.reference_name {
        Some(n) => n,
        None => return Err(GitInfoError::NoUpstreamComputable),
    };
    let head_oid = match &h.oid {
        Some(o) => o,
        None => return Err(GitInfoError::NoUpstreamComputable),
    };
    let tracking = match branch_upstream_name(repo, name.as_str()) {
        Ok(t) => t,
        Err(_) => return Err(GitInfoError::NoTrackingBranch),
    };
    let tracking = match tracking {
        Some(t) => t,
        None => return Err(GitInfoError::NonUtf8TrackingName),
    };
    let tracking_reference = match find_reference(repo, tracking.as_str()) {
        Ok(r) => r,
        Err(e) => return Err(git_failure(e)),
    };
    let tracking_oid = match reference_target(&tracking_reference) {
        Some(o) => o,
        None => return Err(GitInfoError::TrackingBranchHasNoTarget),
    };
    let counts = match graph_ahead_behind_raw(repo, head_oid, &tracking_oid) {
        Ok(c) => c,
        Err(e) => return Err(git_failure(e)),
    };
    Ok(ahead_behind_of(counts))
}

// ---------------------------------------------------------------------
// FileStatusScanner: per-path status bits folded into five flags.
// ---------------------------------------------------------------------

pub const STATUS_INDEX_NEW: u32 = 0x0001;

pub const STATUS_INDEX_MODIFIED: u32 = 0x0002;

pub const STATUS_INDEX_DELETED: u32 = 0x0004;

pub const STATUS_INDEX_RENAMED: u32 = 0x0008;

pub const STATUS_INDEX_TYPECHANGE: u32 = 0x0010;

pub const STATUS_WT_NEW: u32 = 0x0080;

pub const STATUS_WT_MODIFIED: u32 = 0x0100;

pub const STATUS_WT_DELETED: u32 = 0x0200;

pub const STATUS_WT_TYPECHANGE: u32 = 0x0400;

pub const STATUS_WT_RENAMED: u32 = 0x0800;

pub const STATUS_CONFLICTED: u32 = 0x8000;

/// The bitwise union of a sequence of per-path status bit-sets.
pub open spec fn or_fold(s: Seq<u32>) -> u32
    decreases s.len(),
{
    if s.len() == 0 {
        0u32
    } else {
        or_fold(s.drop_last()) | s.last()
    }
}

/// Folds every scanned path's status bit-set with bitwise union.
pub fn union_bits(bits: &Vec<u32>) -> (u: u32)
    ensures
        u == or_fold(bits@),
{
    let mut u: u32 = 0;
    let mut i: usize = 0;
    while i < bits.len()
        invariant
            i <= bits@.len(),
            u == or_fold(bits@.take(i as int)),
        decreases bits@.len() - i,
    {
        u = u | bits[i];
        proof {
            assert(bits@.take(i + 1).drop_last() =~= bits@.take(i as int));
            assert(bits@.take(i + 1).last() == bits@[i as int]);
        }
        i = i + 1;
    }
    proof {
        assert(bits@.take(bits@.len() as int) =~= bits@);
    }
    u
}

/// The five aggregate flags read off a status union: an index-side
/// addition, modification, deletion, rename or typechange sets `staged`; a
/// working-tree modification, deletion or rename sets `unstaged`; a new
/// untracked working-tree path sets `untracked`; a working-tree typechange
/// sets `typechange`, kept distinct from the general unstaged flag; a
/// conflicted path sets `conflict`.
pub open spec fn flags_view(u: u32) -> GitFileStatus {
    GitFileStatus {
        conflict: u & STATUS_CONFLICTED != 0,
        untracked: u & STATUS_WT_NEW != 0,
        typechange: u & STATUS_WT_TYPECHANGE != 0,
        unstaged: u & (STATUS_WT_MODIFIED | STATUS_WT_DELETED | STATUS_WT_RENAMED) != 0,
        staged: u & (STATUS_INDEX_NEW | STATUS_INDEX_MODIFIED | STATUS_INDEX_DELETED
            | STATUS_INDEX_RENAMED | STATUS_INDEX_TYPECHANGE) != 0,
    }
}

/// Maps the union of all scanned status bit-sets onto the five aggregate
/// booleans.
pub fn flags_of_union(u: u32) -> (r: GitFileStatus)
    ensures
        r == flags_view(u),
{
    GitFileStatus {
        conflict: u & STATUS_CONFLICTED != 0,
        untracked: u & STATUS_WT_NEW != 0,
        typechange: u & STATUS_WT_TYPECHANGE != 0,
        unstaged: u & (STATUS_WT_MODIFIED | STATUS_WT_DELETED | STATUS_WT_RENAMED) != 0,
        staged: u & (STATUS_INDEX_NEW | STATUS_INDEX_MODIFIED | STATUS_INDEX_DELETED
            | STATUS_INDEX_RENAMED | STATUS_INDEX_TYPECHANGE) != 0,
    }
}

/// How the resolved flags drive the status enumeration: compare against
/// workdir and index only when workdir stats are wanted; `refresh_status`
/// controls both whether the on-disk index is refreshed and whether that
/// refresh is persisted back to the index file before reading; submodules
/// are excluded unless included; untracked paths are included on demand.
pub fn status_query_flags(o: &ResolvedOptions) -> (q: (bool, bool, bool, bool, bool))
    ensures
        q.0 == o.include_workdir_stats,
        q.1 == !o.refresh_status,
        q.2 == o.refresh_status,
        q.3 == !o.include_submodules,
        q.4 == o.include_untracked,
{
    (
        o.include_workdir_stats,
        !o.refresh_status,
        o.refresh_status,
        !o.include_submodules,
        o.include_untracked,
    )
}

/// Enumerates every path's status bit-set under the resolved options and
/// reduces the bit-sets to the five aggregate flags. Never fails except
/// when the repository cannot be queried.
pub fn file_status(repo: &git2::Repository, options: &ResolvedOptions) -> (r: Result<
    GitFileStatus,
    GitInfoError,
>)
    ensures
        r matches Err(e) ==> e == GitInfoError::StatusQueryFailed,
{
    let q = status_query_flags(options);
    let bits = match statuses_bits(repo, q.0, q.1, q.2, q.3, q.4) {
        Ok(b) => b,
        Err(_) => return Err(GitInfoError::StatusQueryFailed),
    };
    Ok(flags_of_union(union_bits(&bits)))
}

// ---------------------------------------------------------------------
// ConcurrencyOrchestrator: two independent units of work, then a join.
// ---------------------------------------------------------------------

/// How the two units' contributions are joined: each output field comes
/// from exactly one unit.
pub open spec fn join_view(
    head_info: Option<GitHeadInfo>,
    branch_ahead_behind: Option<GitBranchAheadBehind>,
    file_status: Option<GitFileStatus>,
) -> GitOutputOptions {
    GitOutputOptions { head_info, file_status, branch_ahead_behind }
}

/// Joins the two units' results into the aggregate output.
pub fn join_results(
    head_info: Option<GitHeadInfo>,
    branch_ahead_behind: Option<GitBranchAheadBehind>,
    file_status: Option<GitFileStatus>,
) -> (r: GitOutputOptions)
    ensures
        r == join_view(head_info, branch_ahead_behind, file_status),
{
    GitOutputOptions { head_info, file_status, branch_ahead_behind }
}

/// A failure inside either unit never affects the sibling unit's
/// contribution: the head and ahead/behind fields of the joined output are
/// determined by the head unit's results alone, and the file-status field
/// by the status unit's result alone.
pub proof fn lemma_unit_isolation(
    h1: Option<GitHeadInfo>,
    ab1: Option<GitBranchAheadBehind>,
    h2: Option<GitHeadInfo>,
    ab2: Option<GitBranchAheadBehind>,
    f1: Option<GitFileStatus>,
    f2: Option<GitFileStatus>,
)
    ensures
        join_view(h1, ab1, f1).head_info == join_view(h1, ab1, f2).head_info,
        join_view(h1, ab1, f1).branch_ahead_behind == join_view(h1, ab1, f2).branch_ahead_behind,
        join_view(h1, ab1, f1).file_status == join_view(h2, ab2, f1).file_status,
        join_view(h1, ab1, f1).file_status == f1,
{
}

/// The head unit: opens its own handle to the repository, resolves the
/// head, and — only when ahead/behind is enabled — computes the divergence.
/// When disabled, a zeroed divergence is substituted without any upstream
/// lookup or graph computation, whatever became of the repository. Every
/// failure is caught here, logged, and becomes an absent result.
pub fn head_unit(
    path: &str,
    reference_name: &str,
    include_ahead_behind: bool,
    diag: &Diagnostics,
) -> (r: (Option<GitHeadInfo>, Option<GitBranchAheadBehind>))
    ensures
        !include_ahead_behind ==> (r.1 matches Some(ab) && ab.ahead == 0 && ab.behind == 0),
{
    let repo = match repo_open(path) {
        Ok(r) => Some(r),
        Err(e) => {
            git_failure(e).log(diag);
            None
        },
    };
    let head_internal = match &repo {
        Some(r) => head_info(r, reference_name, diag).ok_or_log(diag),
        None => None,
    };
    let ahead_behind = if include_ahead_behind {
        match &repo {
            Some(r) => graph_ahead_behind(r, &head_internal).ok_or_log(diag),
            None => None,
        }
    } else {
        Some(GitBranchAheadBehind { ahead: 0, behind: 0 })
    };
    let display = match head_internal {
        Some(h) => Some(GitHeadInfo::from_internal(h)),
        None => None,
    };
    (display, ahead_behind)
}

/// The status unit: opens its own handle to the repository and scans file
/// status. Every failure is caught here, logged, and becomes an absent
/// result.
pub fn status_unit(path: &str, options: &ResolvedOptions, diag: &Diagnostics) -> (r: Option<
    GitFileStatus,
>) {
    let repo = match repo_open(path) {
        Ok(r) => r,
        Err(e) => {
            git_failure(e).log(diag);
            return None;
        },
    };
    file_status(&repo, options).ok_or_log(diag)
}

/// Resolves configuration for the repository at `path`, runs the two
/// independent units of work — each acquiring its own repository handle,
/// since a handle is not safe to share — and joins their results. Fails
/// only when configuration resolution fails; a failure inside either unit
/// becomes an absent field of the output.
pub fn process_repo(
    path: &str,
    input_options: &GetGitInfoOptions,
    diag: &Diagnostics,
) -> (r: Result<GitOutputOptions, GitInfoError>)
    ensures
        r matches Err(e) ==> (e == GitInfoError::ConfigUnavailable || e matches GitInfoError::Git(
            _,
        )),
{
    let options = match configuration_overrided(path, input_options, diag) {
        Ok(o) => o,
        Err(e) => return Err(e),
    };
    let (head_info_result, branch_ahead_behind_result) = head_unit(
        path,
        input_options.reference_name.as_str(),
        options.include_ahead_behind,
        diag,
    );
    let file_status_result = status_unit(path, &options, diag);
    Ok(join_results(head_info_result, branch_ahead_behind_result, file_status_result))
}

/// The locator's verdict becomes the collection's: a found repository root
/// passes through unchanged, and no marker anywhere up to the filesystem
/// root fails with `RepositoryNotFound`, exactly then.
pub fn require_repo_root(root: Option<String>) -> (r: Result<String, GitInfoError>)
    ensures
        r is Err <==> root is None,
        r matches Err(e) ==> e == GitInfoError::RepositoryNotFound,
        root matches Some(p) ==> r == Ok::<String, GitInfoError>(p),
{
    match root {
        Some(p) => Ok(p),
        None => Err(GitInfoError::RepositoryNotFound),
    }
}

/// Collects the snapshot for the directory the request points at: the
/// request's explicit starting folder when present, else the caller's
/// current working directory. Fails with `PathNotFound` when the starting
/// path does not exist, with `RepositoryNotFound` when no ancestor holds a
/// repository marker, with `ConfigUnavailable` when the repository cannot
/// be opened for configuration resolution, and with the generic library
/// failure when its configuration cannot be read.
pub fn process_current_dir(
    options: &GetGitInfoOptions,
    current_dir: &str,
    diag: &Diagnostics,
) -> (r: Result<GitOutputOptions, GitInfoError>)
    ensures
        r matches Err(e) ==> (e == GitInfoError::PathNotFound || e
            == GitInfoError::RepositoryNotFound || e == GitInfoError::ConfigUnavailable || e
            matches GitInfoError::Git(_)),
{
    let start: &str = match &options.start_folder {
        Some(s) => s.as_str(),
        None => current_dir,
    };
    let git_dir_buf = match git_subfolder(start) {
        Ok(d) => d,
        Err(e) => return Err(e),
    };
    let git_dir = match require_repo_root(git_dir_buf) {
        Ok(d) => d,
        Err(e) => return Err(e),
    };
    process_repo(git_dir.as_str(), options, diag)
}

} // verus!
