//! Tests of the pure, fully specified parts: display derivation, status-bit
//! folding, flag resolution, locator selection, and the join of unit
//! results.

use git_prompt_info::error::Diagnostics;
use git_prompt_info::error::GitInfoError;
use git_prompt_info::error::LogError;
use git_prompt_info::error::MapLog;
use git_prompt_info::git_utils::ahead_behind_of;
use git_prompt_info::git_utils::assemble_head;
use git_prompt_info::git_utils::config_key;
use git_prompt_info::git_utils::flags_of_union;
use git_prompt_info::git_utils::git_failure;
use git_prompt_info::git_utils::join_results;
use git_prompt_info::git_utils::require_repo_root;
use git_prompt_info::git_utils::resolve_flag;
use git_prompt_info::git_utils::status_query_flags;
use git_prompt_info::git_utils::union_bits;
use git_prompt_info::git_utils::STATUS_CONFLICTED;
use git_prompt_info::git_utils::STATUS_INDEX_NEW;
use git_prompt_info::git_utils::STATUS_WT_MODIFIED;
use git_prompt_info::git_utils::STATUS_WT_NEW;
use git_prompt_info::git_utils::STATUS_WT_TYPECHANGE;
use git_prompt_info::structs::GetGitInfoOptions;
use git_prompt_info::structs::GitBranchAheadBehind;
use git_prompt_info::structs::GitFileStatus;
use git_prompt_info::structs::GitHeadInfo;
use git_prompt_info::structs::GitHeadInfoInternal;
use git_prompt_info::structs::Oid;
use git_prompt_info::structs::RefKind;
use git_prompt_info::structs::ResolvedOptions;
use git_prompt_info::util::first_marked;
use git_prompt_info::util::hex_prefix;
use git_prompt_info::util::last_part;
use git_prompt_info::util::marker_path;

fn diag() -> Diagnostics {
    Diagnostics {
        verbose: false,
        app_name: String::from("testprompt"),
    }
}

#[test]
fn last_part_takes_final_segment() {
    assert_eq!(last_part("refs/heads/master"), "master");
    assert_eq!(last_part("HEAD"), "HEAD");
    assert_eq!(last_part("refs/heads/"), "");
    assert_eq!(last_part(""), "");
    assert_eq!(last_part("refs/heads/f\u{f8}\u{f8}"), "f\u{f8}\u{f8}");
}

#[test]
fn hex_prefix_renders_first_bytes() {
    let bytes = vec![0xab, 0xcd, 0xef, 0x12, 0x34, 0x56];
    assert_eq!(hex_prefix(&bytes, 4), "abcdef12");
    assert_eq!(hex_prefix(&bytes, 0), "");
    assert_eq!(hex_prefix(&vec![0x00, 0x0f], 2), "000f");
}

#[test]
fn marker_path_joins_one_segment() {
    assert_eq!(marker_path("/home/user/repo"), "/home/user/repo/.git");
    assert_eq!(marker_path("/"), "/.git");
    assert_eq!(marker_path(""), ".git");
}

#[test]
fn first_marked_picks_most_specific_hit() {
    assert_eq!(first_marked(&vec![false, false, true, true]), Some(2));
    assert_eq!(first_marked(&vec![true]), Some(0));
    assert_eq!(first_marked(&vec![false, false, false]), None);
    assert_eq!(first_marked(&vec![]), None);
}

#[test]
fn resolve_flag_prefers_stored_value() {
    assert_eq!(resolve_flag(Some(true), false), true);
    assert_eq!(resolve_flag(Some(false), true), false);
    assert_eq!(resolve_flag(None, true), true);
    assert_eq!(resolve_flag(None, false), false);
}

#[test]
fn status_union_folds_bitwise() {
    assert_eq!(union_bits(&vec![]), 0);
    assert_eq!(
        union_bits(&vec![STATUS_INDEX_NEW, STATUS_WT_NEW, STATUS_WT_NEW]),
        STATUS_INDEX_NEW | STATUS_WT_NEW
    );
}

#[test]
fn staged_and_untracked_bits_set_only_their_flags() {
    let union = union_bits(&vec![STATUS_INDEX_NEW, STATUS_WT_NEW]);
    let flags = flags_of_union(union);
    assert_eq!(
        flags,
        GitFileStatus {
            conflict: false,
            untracked: true,
            typechange: false,
            unstaged: false,
            staged: true,
        }
    );
}

#[test]
fn conflict_typechange_and_unstaged_flags() {
    let flags = flags_of_union(STATUS_CONFLICTED | STATUS_WT_TYPECHANGE | STATUS_WT_MODIFIED);
    assert!(flags.conflict);
    assert!(flags.typechange);
    assert!(flags.unstaged);
    assert!(!flags.staged);
    assert!(!flags.untracked);
    let clean = flags_of_union(0);
    assert_eq!(
        clean,
        GitFileStatus {
            conflict: false,
            untracked: false,
            typechange: false,
            unstaged: false,
            staged: false,
        }
    );
}

#[test]
fn query_flags_follow_resolved_options() {
    let o = ResolvedOptions {
        include_submodules: false,
        include_untracked: true,
        refresh_status: false,
        include_ahead_behind: true,
        include_workdir_stats: true,
    };
    let q = status_query_flags(&o);
    assert_eq!(q, (true, true, false, true, true));
    let o2 = ResolvedOptions {
        refresh_status: true,
        include_submodules: true,
        include_workdir_stats: false,
        ..o
    };
    let q2 = status_query_flags(&o2);
    assert_eq!(q2, (false, false, true, false, true));
}

#[test]
fn join_keeps_each_unit_contribution_independent() {
    let head = GitHeadInfo {
        reference_short: Some(String::from("main")),
        oid_short: Some(String::from("abcdef12")),
        detached: false,
    };
    let ab = GitBranchAheadBehind { ahead: 1, behind: 2 };
    let joined = join_results(Some(head), Some(ab), None);
    let head_out = joined.head_info.expect("head unit result kept");
    assert_eq!(head_out.reference_short.as_deref(), Some("main"));
    assert_eq!(joined.branch_ahead_behind, Some(ab));
    assert!(joined.file_status.is_none());

    let fs = GitFileStatus {
        conflict: false,
        untracked: true,
        typechange: false,
        unstaged: false,
        staged: false,
    };
    let joined2 = join_results(None, None, Some(fs));
    assert!(joined2.head_info.is_none());
    assert!(joined2.branch_ahead_behind.is_none());
    assert_eq!(joined2.file_status, Some(fs));
}

#[test]
fn display_derivation_shortens_name_and_id() {
    let mut bytes = vec![0xde, 0xad, 0xbe, 0xef];
    bytes.extend(std::iter::repeat(0u8).take(16));
    let internal = GitHeadInfoInternal {
        reference_name: Some(String::from("refs/heads/feature/x")),
        oid: Some(Oid { bytes }),
        detached: false,
    };
    let display = GitHeadInfo::from_internal(internal);
    assert_eq!(display.reference_short.as_deref(), Some("x"));
    assert_eq!(display.oid_short.as_deref(), Some("deadbeef"));
    assert!(!display.detached);
}

#[test]
fn display_derivation_keeps_absent_fields_absent() {
    let internal = GitHeadInfoInternal {
        reference_name: None,
        oid: None,
        detached: true,
    };
    let display = GitHeadInfo::from_internal(internal);
    assert!(display.reference_short.is_none());
    assert!(display.oid_short.is_none());
    assert!(display.detached);
}

#[test]
fn head_assembly_keeps_the_pieces_of_its_kind() {
    let oid = Oid {
        bytes: vec![7u8; 20],
    };

    let unborn = assemble_head(
        RefKind::Unknown,
        Some(String::from("ignored")),
        Some(oid.clone()),
        Some(String::from("ignored too")),
        Some(oid.clone()),
        false,
    );
    assert!(unborn.reference_name.is_none());
    assert!(unborn.oid.is_none());
    assert!(!unborn.detached);

    let symbolic = assemble_head(
        RefKind::Symbolic,
        Some(String::from("refs/heads/main")),
        None,
        None,
        None,
        false,
    );
    assert_eq!(symbolic.reference_name.as_deref(), Some("refs/heads/main"));
    assert!(symbolic.oid.is_none());

    let direct = assemble_head(
        RefKind::Direct,
        None,
        None,
        Some(String::from("HEAD")),
        Some(oid.clone()),
        true,
    );
    assert_eq!(direct.reference_name.as_deref(), Some("HEAD"));
    assert_eq!(direct.oid, Some(oid));
    assert!(direct.detached);
}

#[test]
fn missing_marker_becomes_repository_not_found() {
    let r = require_repo_root(None);
    assert!(matches!(r, Err(GitInfoError::RepositoryNotFound)));
    let found = require_repo_root(Some(String::from("/work/repo")));
    assert_eq!(found.unwrap(), "/work/repo");
}

#[test]
fn config_keys_are_namespaced_by_app_name() {
    assert_eq!(config_key("myprompt", "refresh-status"), "myprompt.refresh-status");
    assert_eq!(config_key("", "include-untracked"), ".include-untracked");
}

#[test]
fn default_request_uses_head_and_sensible_flags() {
    let o = GetGitInfoOptions::default();
    assert!(o.start_folder.is_none());
    assert_eq!(o.reference_name, "HEAD");
    assert!(!o.include_submodules);
    assert!(o.include_untracked);
    assert!(!o.refresh_status);
    assert!(o.include_ahead_behind);
    assert!(o.include_workdir_stats);
}

#[test]
fn ahead_behind_repackages_counts() {
    let ab = ahead_behind_of((3, 2));
    assert_eq!(ab.ahead, 3);
    assert_eq!(ab.behind, 2);
}

#[test]
fn generic_failure_keeps_library_message() {
    let e = git_failure(git2::Error::from_str("boom"));
    assert!(matches!(&e, GitInfoError::Git(m) if m == "boom"));
    assert_eq!(e.message(), "boom");
    assert_eq!(
        GitInfoError::ReferenceNotFound.message(),
        "reference not found"
    );
}

#[test]
fn ok_or_log_keeps_success_and_drops_errors() {
    let d = diag();
    let ok: Result<u32, GitInfoError> = Ok(7);
    assert_eq!(ok.ok_or_log(&d), Some(7));
    let err: Result<u32, GitInfoError> = Err(GitInfoError::StatusQueryFailed);
    assert_eq!(err.ok_or_log(&d), None);
    let verbose = Diagnostics {
        verbose: true,
        app_name: String::from("testprompt"),
    };
    GitInfoError::PathNotFound.log(&verbose);
}
