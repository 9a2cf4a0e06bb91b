use warp_extension::git::repository::{
    GitError, HISTORY_LIMIT, operation_markers, parse_count, ref_exists_args, require_success, state_from_outputs,
};
use warp_extension::git::state::Operation;
use warp_extension::protocol::methods::ExecutionRunResult;
use warp_extension::protocol::wire::{ErrorCode, ExtensionError};
use warp_extension::sdk::ClientError;

fn result(exit_code: Option<i32>, stdout: &str, stderr: &str) -> ExecutionRunResult {
    ExecutionRunResult {
        exit_code,
        stdout: stdout.to_owned(),
        stderr: stderr.to_owned(),
        duration_ms: 3,
        truncated: false,
    }
}

#[test]
fn a_zero_exit_yields_stdout_and_anything_else_an_error_naming_the_command() {
    let args = vec!["status".to_owned(), "-z".to_owned()];
    assert_eq!(require_success(&args, result(Some(0), "out", "")).ok(), Some("out".to_owned()));

    let Err(error) = require_success(&args, result(Some(128), "", "  fatal: not a git repository\n")) else {
        panic!("a non-zero exit is an error");
    };
    assert_eq!(error.message(), "git status -z failed (128): fatal: not a git repository");
    assert_eq!(error.summary(), "fatal: not a git repository");

    let Err(killed) = require_success(&args, result(None, "", "")) else {
        panic!("a signal is an error");
    };
    assert_eq!(killed.message(), "git status -z failed (signal): ");
    assert_eq!(killed.summary(), "Git command failed");

    let Err(negative) = require_success(&args, result(Some(-1), "", "x")) else {
        panic!("a negative code is an error");
    };
    assert_eq!(negative.message(), "git status -z failed (-1): x");
}

#[test]
fn a_client_failure_is_summarised_by_what_the_client_said() {
    let refused = GitError::Client(ClientError::Extension(ExtensionError::new(
        ErrorCode::PermissionDenied,
        "`git` is not an allowed executable".to_owned(),
    )));
    assert_eq!(refused.summary(), "permission_denied: `git` is not an allowed executable");
    assert_eq!(GitError::Client(ClientError::Closed).summary(), "Warp closed the extension stream");
    assert_eq!(
        GitError::Client(ClientError::Transport("eof".to_owned())).summary(),
        "extension transport failed: eof"
    );
}

#[test]
fn the_state_is_assembled_from_whichever_reads_succeeded() {
    let status = "# branch.oid abc\0# branch.head main\0? new.rs\0";
    let branches = "main\x1f\x1fabc1234\x1f*\x1fInitial";
    let log = "abc\x1fabc\x1fAda\x1fnow\x1fInitial\x1e";
    let state = state_from_outputs("/repo".to_owned(), status, Some("origin\n"), Some(branches), Some(log), Operation::Merge);
    assert_eq!(state.root, "/repo");
    assert_eq!(state.status.untracked.len(), 1);
    assert_eq!(state.remotes, ["origin"]);
    assert_eq!(state.branches.len(), 1);
    assert_eq!(state.history.len(), 1);
    assert_eq!(state.operation, Operation::Merge);
    assert_eq!(state.error, None);

    let partial = state_from_outputs("/repo".to_owned(), status, None, None, None, Operation::Idle);
    assert!(partial.remotes.is_empty() && partial.branches.is_empty() && partial.history.is_empty());

    let initial = state_from_outputs("/repo".to_owned(), "# branch.oid (initial)\0# branch.head main\0", None, None, Some(log), Operation::Idle);
    assert!(initial.history.is_empty(), "a repository with no commits has no history to show");
}

#[test]
fn counts_and_probes_use_the_documented_forms() {
    assert_eq!(parse_count(" 3\n"), Some(3));
    assert_eq!(parse_count("three"), None);
    assert_eq!(operation_markers(), ["REBASE_HEAD", "CHERRY_PICK_HEAD", "MERGE_HEAD"]);
    assert_eq!(ref_exists_args("MERGE_HEAD"), ["rev-parse", "--verify", "--quiet", "MERGE_HEAD"]);
    assert_eq!(HISTORY_LIMIT, 25);
}

#[test]
fn a_carriage_return_goes_with_its_newline_only() {
    let command = |stderr: &str| GitError::Command {
        command: "git push".to_owned(),
        exit_code: Some(1),
        stderr: stderr.to_owned(),
    };
    assert_eq!(command("\r\nfatal: rejected\r\nhint: pull first").summary(), "fatal: rejected");
    assert_eq!(command("fatal: rejected\r").summary(), "fatal: rejected\r");
}
