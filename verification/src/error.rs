//! Error kinds of the collector, and the small logging facility that the
//! rest of the library threads through explicitly instead of holding
//! process-global state.

use std::io::Write;
use vstd::prelude::*;

verus! {

/// Ambient diagnostic configuration, passed explicitly: the verbosity
/// switch and the application name, used both as the prefix of logged
/// messages and as the namespace of repository configuration keys.
#[derive(Clone)]
pub struct Diagnostics {
    pub verbose: bool,
    pub app_name: String,
}

/// Every way a collection can fail. Failures during repository location or
/// configuration resolution are fatal to the whole collection; failures
/// inside one of the two concurrent units are caught at that unit's
/// boundary and become an absent sub-result.
#[derive(Debug)]
pub enum GitInfoError {
    /// The starting path does not exist.
    PathNotFound,
    /// No ancestor of the starting path holds a repository marker.
    RepositoryNotFound,
    /// The repository could not be opened while resolving configuration.
    ConfigUnavailable,
    /// The named reference does not exist at all.
    ReferenceNotFound,
    /// Ahead/behind was asked of a head with no branch name or no commit id.
    NoUpstreamComputable,
    /// The local branch has no upstream tracking reference configured.
    NoTrackingBranch,
    /// The upstream tracking name cannot be represented as text.
    NonUtf8TrackingName,
    /// The upstream tracking reference has no target id.
    TrackingBranchHasNoTarget,
    /// The repository's status could not be queried.
    StatusQueryFailed,
    /// A generic repository-library failure, wrapping the library's message.
    Git(String),
}

impl GitInfoError {
    /// The display text of each kind.
    pub open spec fn message_view(&self) -> Seq<char> {
        match self {
            GitInfoError::PathNotFound => "starting path doesn't exist"@,
            GitInfoError::RepositoryNotFound => "not found .git folder"@,
            GitInfoError::ConfigUnavailable => "repository configuration is unavailable"@,
            GitInfoError::ReferenceNotFound => "reference not found"@,
            GitInfoError::NoUpstreamComputable => "tracking branch doesn't exist"@,
            GitInfoError::NoTrackingBranch => "no tracking branch is configured"@,
            GitInfoError::NonUtf8TrackingName => {
                "tracking branch can't be converted to an UTF-8 string"@
            },
            GitInfoError::TrackingBranchHasNoTarget => "tracking branch has no oid"@,
            GitInfoError::StatusQueryFailed => "file status can't be queried"@,
            GitInfoError::Git(m) => m@,
        }
    }

    pub fn message(&self) -> (r: &str)
        ensures
            r@ == self.message_view(),
    {
        match self {
            GitInfoError::PathNotFound => "starting path doesn't exist",
            GitInfoError::RepositoryNotFound => "not found .git folder",
            GitInfoError::ConfigUnavailable => "repository configuration is unavailable",
            GitInfoError::ReferenceNotFound => "reference not found",
            GitInfoError::NoUpstreamComputable => "tracking branch doesn't exist",
            GitInfoError::NoTrackingBranch => "no tracking branch is configured",
            GitInfoError::NonUtf8TrackingName => {
                "tracking branch can't be converted to an UTF-8 string"
            },
            GitInfoError::TrackingBranchHasNoTarget => "tracking branch has no oid",
            GitInfoError::StatusQueryFailed => "file status can't be queried",
            GitInfoError::Git(m) => m.as_str(),
        }
    }
}

/// Relies on std::io::Stderr (through writeln): prints one diagnostic line
/// to standard error.
#[verifier::external_body]
fn log_line(app_name: &str, msg: &str) {
    let _ = writeln!(std::io::stderr(), "{}:  {}", app_name, msg);
}

pub trait LogError {
    /// Prints the error message to standard error when verbose diagnostics
    /// are enabled.
    fn log(&self, diag: &Diagnostics);
}

impl LogError for GitInfoError {
    fn log(&self, diag: &Diagnostics) {
        if diag.verbose {
            log_line(diag.app_name.as_str(), self.message());
        }
    }
}

pub trait MapLog<T>: Sized {
    /// The success value, if any.
    spec fn ok_view(self) -> Option<T>;

    /// Works as an error-dropping conversion to an option, printing the
    /// error message to standard error first when verbose diagnostics are
    /// enabled.
    fn ok_or_log(self, diag: &Diagnostics) -> (r: Option<T>)
        ensures
            r == self.ok_view(),
    ;
}

impl<T> MapLog<T> for Result<T, GitInfoError> {
    open spec fn ok_view(self) -> Option<T> {
        match self {
            Ok(t) => Some(t),
            Err(_) => None,
        }
    }

    fn ok_or_log(self, diag: &Diagnostics) -> (r: Option<T>)
        ensures
            r == self.ok_view(),
    {
        match self {
            Ok(t) => Some(t),
            Err(e) => {
                e.log(diag);
                None
            },
        }
    }
}

} // verus!
