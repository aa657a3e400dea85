//! The data model: the immutable request, the resolved behavior flags, and
//! the pieces of the aggregate result.

use vstd::prelude::*;

verus! {

/// The immutable input: an optional explicit starting directory, the name
/// of the reference to resolve (normally "HEAD"), and the five behavior
/// flags that repository configuration may override.
#[derive(Debug, Clone)]
pub struct GetGitInfoOptions {
    /// The directory the repository search starts from; when absent, the
    /// caller passes the process's working directory separately.
    pub start_folder: Option<String>,
    /// The reference to resolve, normally "HEAD".
    pub reference_name: String,
    pub include_submodules: bool,
    pub include_untracked: bool,
    pub refresh_status: bool,
    pub include_ahead_behind: bool,
    pub include_workdir_stats: bool,
}

impl Default for GetGitInfoOptions {
    fn default() -> (r: Self)
        ensures
            r.start_folder is None,
            r.reference_name@ == "HEAD"@,
            !r.include_submodules,
            r.include_untracked,
            !r.refresh_status,
            r.include_ahead_behind,
            r.include_workdir_stats,
    {
        GetGitInfoOptions {
            start_folder: None,
            reference_name: String::from_str("HEAD"),
            include_submodules: false,
            include_untracked: true,
            refresh_status: false,
            include_ahead_behind: true,
            include_workdir_stats: true,
        }
    }
}

/// The five behavior flags after merging the request's defaults with
/// repository configuration; derived once, read-only thereafter.
#[derive(Debug, Clone, Copy, PartialEq, Eq, Structural)]
pub struct ResolvedOptions {
    pub include_submodules: bool,
    pub include_untracked: bool,
    pub refresh_status: bool,
    pub include_ahead_behind: bool,
    pub include_workdir_stats: bool,
}

/// A concrete commit identifier, held as the raw bytes of the repository
/// object id.
#[derive(Debug, Clone, PartialEq, Eq)]
pub struct Oid {
    pub bytes: Vec<u8>,
}

impl Oid {
    /// A well-formed id holds exactly 20 raw bytes.
    pub open spec fn wf(&self) -> bool {
        self.bytes@.len() == 20
    }
}

/// The kind of a reference: directly targeting an id, symbolically naming
/// another reference, or of no known kind (an unborn branch's target).
#[derive(Debug, Clone, Copy, PartialEq, Eq, Structural)]
pub enum RefKind {
    Unknown,
    Symbolic,
    Direct,
}

/// The resolved head before display derivation: the full reference name,
/// the concrete target id, and whether the head is detached.
#[derive(Debug, Clone)]
pub struct GitHeadInfoInternal {
    pub reference_name: Option<String>,
    pub oid: Option<Oid>,
    pub detached: bool,
}

impl GitHeadInfoInternal {
    /// A present id is well-formed.
    pub open spec fn wf(&self) -> bool {
        self.oid matches Some(o) ==> o.wf()
    }
}

/// The display form of the resolved head: the final segment of the
/// reference name and the first 8 hexadecimal characters of the id.
#[derive(Debug, Clone)]
pub struct GitHeadInfo {
    pub reference_short: Option<String>,
    pub oid_short: Option<String>,
    pub detached: bool,
}

/// Divergence from the upstream tracking reference: commits reachable only
/// from the head (ahead) and only from the upstream (behind).
#[derive(Debug, Clone, Copy, PartialEq, Eq, Structural)]
pub struct GitBranchAheadBehind {
    pub ahead: usize,
    pub behind: usize,
}

/// The five aggregate dirtiness flags. Each is true iff at least one
/// scanned path contributes a matching condition; the flags are
/// independent, not mutually exclusive.
#[derive(Debug, Clone, Copy, PartialEq, Eq, Structural)]
pub struct GitFileStatus {
    pub conflict: bool,
    pub untracked: bool,
    pub typechange: bool,
    pub unstaged: bool,
    pub staged: bool,
}

/// The aggregate result. An absent field means that sub-computation was
/// skipped or failed, never "empty repository".
#[derive(Debug, Clone)]
pub struct GitOutputOptions {
    pub head_info: Option<GitHeadInfo>,
    pub file_status: Option<GitFileStatus>,
    pub branch_ahead_behind: Option<GitBranchAheadBehind>,
}

} // verus!
