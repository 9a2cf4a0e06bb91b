//! Argument vectors for the Git commands the plugin runs.
//!
//! Every operation is a pure function returning argv, so the exact command a
//! destructive action will run is assertable in a test without executing it.
//! That matters most for the deletion and push paths, where the difference
//! between two argument vectors is the difference between a recoverable and an
//! unrecoverable outcome.
use vstd::prelude::*;

use crate::text::{extend_strings, owned, push_str, strs};

verus! {

/// `--` separates paths from revisions, so a file named like a branch cannot be
/// reinterpreted as one.
fn with_paths(mut argv: Vec<String>, paths: &[String]) -> (r: Vec<String>)
    ensures
        strs(r@) == strs(argv@).push("--"@) + strs(paths@),
{
    let ghost before = strs(argv@);
    argv.push(owned("--"));
    assert(strs(argv@) =~= before.push("--"@));
    extend_strings(&mut argv, paths);
    argv
}

pub fn remotes() -> (r: Vec<String>)
    ensures
        strs(r@) == seq!["remote"@],
{
    let r = vec![owned("remote")];
    assert(strs(r@) =~= seq!["remote"@]);
    r
}

pub fn stage(paths: &[String]) -> (r: Vec<String>)
    ensures
        strs(r@) == seq!["add"@, "--"@] + strs(paths@),
{
    let p = vec![owned("add")];
    assert(strs(p@).push("--"@) =~= seq!["add"@, "--"@]);
    with_paths(p, paths)
}

pub fn stage_all() -> (r: Vec<String>)
    ensures
        strs(r@) == seq!["add"@, "--all"@],
{
    let r = vec![owned("add"), owned("--all")];
    assert(strs(r@) =~= seq!["add"@, "--all"@]);
    r
}

/// `restore --staged` rather than `reset`, so unstaging never moves HEAD.
pub fn unstage(paths: &[String]) -> (r: Vec<String>)
    ensures
        strs(r@) == seq!["restore"@, "--staged"@, "--"@] + strs(paths@),
{
    let p = vec![owned("restore"), owned("--staged")];
    assert(strs(p@).push("--"@) =~= seq!["restore"@, "--staged"@, "--"@]);
    with_paths(p, paths)
}

pub fn unstage_all() -> (r: Vec<String>)
    ensures
        strs(r@) == seq!["reset"@, "--mixed"@, "HEAD"@],
{
    let r = vec![owned("reset"), owned("--mixed"), owned("HEAD")];
    assert(strs(r@) =~= seq!["reset"@, "--mixed"@, "HEAD"@]);
    r
}

/// Discards worktree changes for tracked paths. Irreversible; the caller must
/// confirm first.
pub fn discard(paths: &[String]) -> (r: Vec<String>)
    ensures
        strs(r@) == seq!["checkout"@, "--"@] + strs(paths@),
{
    let p = vec![owned("checkout")];
    assert(strs(p@).push("--"@) =~= seq!["checkout"@, "--"@]);
    with_paths(p, paths)
}

/// Deletes untracked files. Scoped to explicit paths — there is deliberately no
/// `clean -fdx` here, because a button that wipes ignored files is not
/// something a user can undo.
pub fn delete_untracked(paths: &[String]) -> (r: Vec<String>)
    ensures
        strs(r@) == seq!["clean"@, "--force"@, "--"@] + strs(paths@),
{
    let p = vec![owned("clean"), owned("--force")];
    assert(strs(p@).push("--"@) =~= seq!["clean"@, "--force"@, "--"@]);
    with_paths(p, paths)
}

/// Commits the index. `--` is not used: there are no paths, and passing one
/// would commit that path rather than the index.
pub fn commit(message: &str) -> (r: Vec<String>)
    ensures
        strs(r@) == seq!["commit"@, "--message"@, message@],
{
    let r = vec![owned("commit"), owned("--message"), owned(message)];
    assert(strs(r@) =~= seq!["commit"@, "--message"@, message@]);
    r
}

pub fn fetch() -> (r: Vec<String>)
    ensures
        strs(r@) == seq!["fetch"@, "--prune"@],
{
    let r = vec![owned("fetch"), owned("--prune")];
    assert(strs(r@) =~= seq!["fetch"@, "--prune"@]);
    r
}

pub fn pull() -> (r: Vec<String>)
    ensures
        strs(r@) == seq!["pull"@, "--ff-only"@],
{
    let r = vec![owned("pull"), owned("--ff-only")];
    assert(strs(r@) =~= seq!["pull"@, "--ff-only"@]);
    r
}

pub fn push() -> (r: Vec<String>)
    ensures
        strs(r@) == seq!["push"@],
{
    let r = vec![owned("push")];
    assert(strs(r@) =~= seq!["push"@]);
    r
}

pub fn push_setting_upstream(remote: &str, branch: &str) -> (r: Vec<String>)
    ensures
        strs(r@) == seq!["push"@, "--set-upstream"@, remote@, branch@],
{
    let r = vec![owned("push"), owned("--set-upstream"), owned(remote), owned(branch)];
    assert(strs(r@) =~= seq!["push"@, "--set-upstream"@, remote@, branch@]);
    r
}

/// A force update never maps to `--force`.
///
/// `--force-with-lease` refuses when the remote moved since the last fetch, so
/// a teammate's push cannot be silently discarded.
pub fn force_push_with_lease() -> (r: Vec<String>)
    ensures
        strs(r@) == seq!["push"@, "--force-with-lease"@],
{
    let r = vec![owned("push"), owned("--force-with-lease")];
    assert(strs(r@) =~= seq!["push"@, "--force-with-lease"@]);
    r
}

pub fn create_branch(name: &str) -> (r: Vec<String>)
    ensures
        strs(r@) == seq!["switch"@, "--create"@, name@],
{
    let r = vec![owned("switch"), owned("--create"), owned(name)];
    assert(strs(r@) =~= seq!["switch"@, "--create"@, name@]);
    r
}

pub fn switch_branch(name: &str) -> (r: Vec<String>)
    ensures
        strs(r@) == seq!["switch"@, name@],
{
    let r = vec![owned("switch"), owned(name)];
    assert(strs(r@) =~= seq!["switch"@, name@]);
    r
}

/// Checks out a remote-tracking branch as a local branch that tracks it.
pub fn switch_to_remote_branch(local: &str, remote_ref: &str) -> (r: Vec<String>)
    ensures
        strs(r@) == seq!["switch"@, "--create"@, local@, "--track"@, remote_ref@],
{
    let r = vec![owned("switch"), owned("--create"), owned(local), owned("--track"), owned(remote_ref)];
    assert(strs(r@) =~= seq!["switch"@, "--create"@, local@, "--track"@, remote_ref@]);
    r
}

pub fn rename_branch(from: &str, to: &str) -> (r: Vec<String>)
    ensures
        strs(r@) == seq!["branch"@, "--move"@, from@, to@],
{
    let r = vec![owned("branch"), owned("--move"), owned(from), owned(to)];
    assert(strs(r@) =~= seq!["branch"@, "--move"@, from@, to@]);
    r
}

/// Safe delete: Git refuses if the branch holds unmerged commits.
pub fn delete_branch(name: &str) -> (r: Vec<String>)
    ensures
        strs(r@) == seq!["branch"@, "--delete"@, name@],
{
    let r = vec![owned("branch"), owned("--delete"), owned(name)];
    assert(strs(r@) =~= seq!["branch"@, "--delete"@, name@]);
    r
}

/// Force delete, which discards unmerged commits. Only reachable behind a
/// second, stronger confirmation.
pub fn force_delete_branch(name: &str) -> (r: Vec<String>)
    ensures
        strs(r@) == seq!["branch"@, "--delete"@, "--force"@, name@],
{
    let r = vec![owned("branch"), owned("--delete"), owned("--force"), owned(name)];
    assert(strs(r@) =~= seq!["branch"@, "--delete"@, "--force"@, name@]);
    r
}

/// Commits on `branch` that are not reachable from `base`, used to tell the
/// user what a force delete would discard.
pub fn unmerged_commit_count(branch: &str, base: &str) -> (r: Vec<String>)
    ensures
        strs(r@) == seq!["rev-list"@, "--count"@, base@ + ".."@ + branch@],
{
    let mut range = owned(base);
    push_str(&mut range, "..");
    push_str(&mut range, branch);
    let r = vec![owned("rev-list"), owned("--count"), range];
    assert(strs(r@) =~= seq!["rev-list"@, "--count"@, base@ + ".."@ + branch@]);
    r
}

pub fn rebase_onto(base: &str) -> (r: Vec<String>)
    ensures
        strs(r@) == seq!["rebase"@, base@],
{
    let r = vec![owned("rebase"), owned(base)];
    assert(strs(r@) =~= seq!["rebase"@, base@]);
    r
}

pub fn rebase_continue() -> (r: Vec<String>)
    ensures
        strs(r@) == seq!["rebase"@, "--continue"@],
{
    let r = vec![owned("rebase"), owned("--continue")];
    assert(strs(r@) =~= seq!["rebase"@, "--continue"@]);
    r
}

pub fn rebase_abort() -> (r: Vec<String>)
    ensures
        strs(r@) == seq!["rebase"@, "--abort"@],
{
    let r = vec![owned("rebase"), owned("--abort")];
    assert(strs(r@) =~= seq!["rebase"@, "--abort"@]);
    r
}

pub fn merge_abort() -> (r: Vec<String>)
    ensures
        strs(r@) == seq!["merge"@, "--abort"@],
{
    let r = vec![owned("merge"), owned("--abort")];
    assert(strs(r@) =~= seq!["merge"@, "--abort"@]);
    r
}

} // verus!
