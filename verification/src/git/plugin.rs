//! The Git plugin's decisions.
//!
//! The plugin talks to Warp in turns: an event arrives, the plugin asks the
//! user something or runs Git through Warp, and decides what to do with the
//! answer. The talking happens at the edge; every decision in between is a
//! function here, from what the plugin knows to what it does next.
use vstd::prelude::*;

use crate::git::branches::{Branch, BranchScope, SpecBranch, branches_view};
use crate::git::operations;
use crate::git::panel;
use crate::git::repository::{GitError, fault_summary};
use crate::git::state::{RepositoryState, in_scope, spec_default_base, spec_default_remote};
use crate::protocol::events::EventKind;
use crate::protocol::methods::{DialogSelectOption, DiffComparison, NotificationLevel};
use crate::text::{decimal, owned, push_decimal, push_str, same, split_once, split_once_at, chars_of, string_of, strs, trim, trimmed, find_char};

verus! {

/// The extension id the plugin identifies itself with at the handshake.
pub const EXTENSION_ID: &'static str = "dev.warp.git";

/// A notification to show.
pub struct Notice {
    pub title: String,
    pub body: Option<String>,
    pub level: NotificationLevel,
}

/// A confirmation to ask for; the cancel button is Warp's.
pub struct ConfirmPrompt {
    pub title: String,
    pub body: Option<String>,
    pub confirm_label: String,
    pub destructive: bool,
}

/// A line of text to ask for.
pub struct InputPrompt {
    pub title: String,
    pub placeholder: Option<String>,
}

pub open spec fn notice_is(n: Notice, title: Seq<char>, body: Option<Seq<char>>, level: NotificationLevel) -> bool {
    n.title@ == title && n.body.deep_view() == body && n.level == level
}

pub open spec fn confirm_is(c: ConfirmPrompt, title: Seq<char>, body: Option<Seq<char>>, label: Seq<char>, destructive: bool) -> bool {
    c.title@ == title && c.body.deep_view() == body && c.confirm_label@ == label && c.destructive == destructive
}

pub open spec fn input_is(p: InputPrompt, title: Seq<char>, placeholder: Seq<char>) -> bool {
    p.title@ == title && p.placeholder.deep_view() == Some(placeholder)
}

/// What a host event asks of the plugin.
#[derive(Debug, Clone, Copy, PartialEq, Eq, Structural)]
pub enum EventPlan {
    /// Warp is stopping the plugin: exit cleanly.
    Stop,
    /// The context may have changed: read the repository again.
    Refresh,
    /// The session the repository lived on is gone: forget it and show the
    /// empty panel.
    Disconnect,
    /// Decode the parameters and act on the row action.
    PanelAction,
    /// Decode the parameters and act on the command.
    Command,
}

/// How the plugin answers each event.
pub open spec fn event_plan_of(kind: EventKind) -> EventPlan {
    match kind {
        EventKind::ExtensionShutdown => EventPlan::Stop,
        EventKind::WorkspaceChanged | EventKind::CwdChanged | EventKind::RepositoryChanged
        | EventKind::SessionChanged | EventKind::SshConnected => EventPlan::Refresh,
        EventKind::SshDisconnected => EventPlan::Disconnect,
        EventKind::PanelAction => EventPlan::PanelAction,
        EventKind::CommandInvoked => EventPlan::Command,
    }
}

pub fn event_plan(kind: EventKind) -> (p: EventPlan)
    ensures
        p == event_plan_of(kind),
{
    match kind {
        EventKind::ExtensionShutdown => EventPlan::Stop,
        EventKind::WorkspaceChanged | EventKind::CwdChanged | EventKind::RepositoryChanged
        | EventKind::SessionChanged | EventKind::SshConnected => EventPlan::Refresh,
        EventKind::SshDisconnected => EventPlan::Disconnect,
        EventKind::PanelAction => EventPlan::PanelAction,
        EventKind::CommandInvoked => EventPlan::Command,
    }
}

/// A staged row diffs the index against HEAD; an unstaged or untracked row
/// the worktree against the index; anything else the worktree against HEAD.
///
/// The same path appears in both the staged and unstaged sections when it was
/// staged and then edited again, so the section is what distinguishes the two
/// rows — the path alone cannot.
pub open spec fn comparison_of(section_id: Seq<char>) -> DiffComparison {
    if section_id == "git.staged"@ {
        DiffComparison::HeadToIndex
    } else if section_id == "git.unstaged"@ || section_id == "git.untracked"@ {
        DiffComparison::IndexToWorktree
    } else {
        DiffComparison::HeadToWorktree
    }
}

pub fn comparison_for_section(section_id: &str) -> (c: DiffComparison)
    ensures
        c == comparison_of(section_id@),
{
    if same(section_id, panel::SECTION_STAGED) {
        DiffComparison::HeadToIndex
    } else if same(section_id, panel::SECTION_UNSTAGED) || same(section_id, panel::SECTION_UNTRACKED) {
        DiffComparison::IndexToWorktree
    } else {
        DiffComparison::HeadToWorktree
    }
}

/// The repository an action runs in: the one its origin names, else the one
/// last read.
pub open spec fn action_root_of(origin_root: Option<Seq<char>>, state: Option<RepositoryState>) -> Option<Seq<char>> {
    match origin_root {
        Some(root) => Some(root),
        None => match state {
            Some(s) => Some(s.root@),
            None => None,
        },
    }
}

/// Binds an action to the repository it started in: the origin's root, so a
/// focus change while a dialog was open cannot retarget it, falling back to
/// the repository last read.
pub fn action_root(origin_root: Option<&str>, state: Option<&RepositoryState>) -> (r: Option<String>)
    ensures
        r.deep_view() == action_root_of(
            match origin_root { Some(s) => Some(s@), None => None },
            match state { Some(s) => Some(*s), None => None },
        ),
{
    match origin_root {
        Some(root) => Some(owned(root)),
        None => match state {
            Some(s) => Some(s.root.clone()),
            None => None,
        },
    }
}

/// What a row action asks of the plugin.
pub enum PanelPlan {
    /// Nothing: an unknown action, or one that needs a repository the origin
    /// does not name.
    Ignore,
    OpenDiff { root: String, path: String, comparison: DiffComparison },
    OpenFile { path: String },
    /// Open the working-tree diff and say which commit was asked for.
    OpenCommit { root: String, commit: String },
    /// Run Git, then report a failure and refresh.
    Run { argv: Vec<String> },
    /// Ask first; run only when the user confirms.
    ConfirmThenRun { confirm: ConfirmPrompt, argv: Vec<String> },
    /// Ask for the new name of `branch`, then rename it.
    Rename { prompt: InputPrompt, branch: String },
    /// Delete `branch`, escalating to a force delete only with consent.
    DeleteBranch { branch: String },
}

/// The local name a remote-tracking branch is checked out as: everything
/// after the first `/`, or the whole name when there is none.
pub open spec fn local_name(remote_ref: Seq<char>) -> Seq<char> {
    match split_once(remote_ref, '/') {
        Some((_, rest)) => rest,
        None => remote_ref,
    }
}

fn local_name_of(remote_ref: &str) -> (s: String)
    ensures
        s@ == local_name(remote_ref@),
{
    let v = chars_of(remote_ref);
    match split_once_at(&v, 0, v.len(), '/') {
        Some((_, b)) => {
            assert(v@.subrange(0, v@.len() as int) =~= v@);
            string_of(&v, b, v.len())
        },
        None => {
            assert(v@.subrange(0, v@.len() as int) =~= v@);
            owned(remote_ref)
        },
    }
}

/// A [`ConfirmPrompt`] as plain values.
pub struct ConfirmView {
    pub title: Seq<char>,
    pub body: Option<Seq<char>>,
    pub confirm_label: Seq<char>,
    pub destructive: bool,
}

impl View for ConfirmPrompt {
    type V = ConfirmView;

    open spec fn view(&self) -> ConfirmView {
        ConfirmView {
            title: self.title@,
            body: self.body.deep_view(),
            confirm_label: self.confirm_label@,
            destructive: self.destructive,
        }
    }
}

/// An [`InputPrompt`] as plain values.
pub struct InputView {
    pub title: Seq<char>,
    pub placeholder: Option<Seq<char>>,
}

impl View for InputPrompt {
    type V = InputView;

    open spec fn view(&self) -> InputView {
        InputView { title: self.title@, placeholder: self.placeholder.deep_view() }
    }
}

/// A [`PanelPlan`] as plain values.
pub enum PanelPlanView {
    Ignore,
    OpenDiff { root: Seq<char>, path: Seq<char>, comparison: DiffComparison },
    OpenFile { path: Seq<char> },
    OpenCommit { root: Seq<char>, commit: Seq<char> },
    Run { argv: Seq<Seq<char>> },
    ConfirmThenRun { confirm: ConfirmView, argv: Seq<Seq<char>> },
    Rename { prompt: InputView, branch: Seq<char> },
    DeleteBranch { branch: Seq<char> },
}

impl View for PanelPlan {
    type V = PanelPlanView;

    open spec fn view(&self) -> PanelPlanView {
        match self {
            PanelPlan::Ignore => PanelPlanView::Ignore,
            PanelPlan::OpenDiff { root, path, comparison } => PanelPlanView::OpenDiff {
                root: root@,
                path: path@,
                comparison: *comparison,
            },
            PanelPlan::OpenFile { path } => PanelPlanView::OpenFile { path: path@ },
            PanelPlan::OpenCommit { root, commit } => PanelPlanView::OpenCommit { root: root@, commit: commit@ },
            PanelPlan::Run { argv } => PanelPlanView::Run { argv: strs(argv@) },
            PanelPlan::ConfirmThenRun { confirm, argv } => PanelPlanView::ConfirmThenRun {
                confirm: confirm@,
                argv: strs(argv@),
            },
            PanelPlan::Rename { prompt, branch } => PanelPlanView::Rename { prompt: prompt@, branch: branch@ },
            PanelPlan::DeleteBranch { branch } => PanelPlanView::DeleteBranch { branch: branch@ },
        }
    }
}

/// What each row action does. Opening a diff, a file or a commit needs the
/// repository the action's origin names and does nothing without one.
/// Discarding changes and deleting an untracked file cannot be undone, so
/// both ask first.
pub open spec fn panel_plan(action: Seq<char>, section: Seq<char>, item: Seq<char>, root: Option<Seq<char>>) -> PanelPlanView {
    if action == "open_diff"@ {
        match root {
            Some(r) => PanelPlanView::OpenDiff { root: r, path: item, comparison: comparison_of(section) },
            None => PanelPlanView::Ignore,
        }
    } else if action == "open_file"@ {
        match root {
            Some(r) => PanelPlanView::OpenFile { path: r + "/"@ + item },
            None => PanelPlanView::Ignore,
        }
    } else if action == "open_commit"@ {
        match root {
            Some(r) => PanelPlanView::OpenCommit { root: r, commit: item },
            None => PanelPlanView::Ignore,
        }
    } else if action == "stage"@ {
        PanelPlanView::Run { argv: seq!["add"@, "--"@, item] }
    } else if action == "unstage"@ {
        PanelPlanView::Run { argv: seq!["restore"@, "--staged"@, "--"@, item] }
    } else if action == "discard"@ {
        PanelPlanView::ConfirmThenRun {
            confirm: ConfirmView {
                title: "Discard changes to "@ + item + "?"@,
                body: Some("This cannot be undone."@),
                confirm_label: "Discard"@,
                destructive: true,
            },
            argv: seq!["checkout"@, "--"@, item],
        }
    } else if action == "delete_file"@ {
        PanelPlanView::ConfirmThenRun {
            confirm: ConfirmView {
                title: "Delete "@ + item + "?"@,
                body: Some("This untracked file is not in Git, so it cannot be recovered."@),
                confirm_label: "Delete"@,
                destructive: true,
            },
            argv: seq!["clean"@, "--force"@, "--"@, item],
        }
    } else if action == "switch_branch"@ {
        PanelPlanView::Run { argv: seq!["switch"@, item] }
    } else if action == "checkout_remote"@ {
        PanelPlanView::Run { argv: seq!["switch"@, "--create"@, local_name(item), "--track"@, item] }
    } else if action == "rename_branch"@ {
        PanelPlanView::Rename {
            prompt: InputView { title: "Rename "@ + item, placeholder: Some("new branch name"@) },
            branch: item,
        }
    } else if action == "delete_branch"@ {
        PanelPlanView::DeleteBranch { branch: item }
    } else {
        PanelPlanView::Ignore
    }
}

pub open spec fn opt_str(s: Option<&str>) -> Option<Seq<char>> {
    match s {
        Some(t) => Some(t@),
        None => None,
    }
}

/// Decides what a row action does; see [`panel_plan`].
pub fn plan_panel_action(action_id: &str, section_id: &str, item: &str, root: Option<&str>) -> (p: PanelPlan)
    ensures
        p@ == panel_plan(action_id@, section_id@, item@, opt_str(root)),
{
    let paths = vec![owned(item)];
    assert(strs(paths@) =~= seq![item@]);
    if same(action_id, panel::ACTION_OPEN_DIFF) {
        match root {
            Some(r) => PanelPlan::OpenDiff {
                root: owned(r),
                path: owned(item),
                comparison: comparison_for_section(section_id),
            },
            None => PanelPlan::Ignore,
        }
    } else if same(action_id, panel::ACTION_OPEN_FILE) {
        match root {
            Some(r) => {
                let mut path = owned(r);
                push_str(&mut path, "/");
                push_str(&mut path, item);
                PanelPlan::OpenFile { path }
            },
            None => PanelPlan::Ignore,
        }
    } else if same(action_id, panel::ACTION_OPEN_COMMIT) {
        match root {
            Some(r) => PanelPlan::OpenCommit { root: owned(r), commit: owned(item) },
            None => PanelPlan::Ignore,
        }
    } else if same(action_id, panel::ACTION_STAGE) {
        let argv = operations::stage(paths.as_slice());
        assert(strs(argv@) =~= seq!["add"@, "--"@, item@]);
        PanelPlan::Run { argv }
    } else if same(action_id, panel::ACTION_UNSTAGE) {
        let argv = operations::unstage(paths.as_slice());
        assert(strs(argv@) =~= seq!["restore"@, "--staged"@, "--"@, item@]);
        PanelPlan::Run { argv }
    } else if same(action_id, panel::ACTION_DISCARD) {
        let mut title = owned("Discard changes to ");
        push_str(&mut title, item);
        push_str(&mut title, "?");
        let argv = operations::discard(paths.as_slice());
        assert(strs(argv@) =~= seq!["checkout"@, "--"@, item@]);
        PanelPlan::ConfirmThenRun {
            confirm: ConfirmPrompt {
                title,
                body: Some(owned("This cannot be undone.")),
                confirm_label: owned("Discard"),
                destructive: true,
            },
            argv,
        }
    } else if same(action_id, panel::ACTION_DELETE_FILE) {
        let mut title = owned("Delete ");
        push_str(&mut title, item);
        push_str(&mut title, "?");
        let argv = operations::delete_untracked(paths.as_slice());
        assert(strs(argv@) =~= seq!["clean"@, "--force"@, "--"@, item@]);
        PanelPlan::ConfirmThenRun {
            confirm: ConfirmPrompt {
                title,
                body: Some(owned("This untracked file is not in Git, so it cannot be recovered.")),
                confirm_label: owned("Delete"),
                destructive: true,
            },
            argv,
        }
    } else if same(action_id, panel::ACTION_SWITCH_BRANCH) {
        PanelPlan::Run { argv: operations::switch_branch(item) }
    } else if same(action_id, panel::ACTION_CHECKOUT_REMOTE) {
        let local = local_name_of(item);
        PanelPlan::Run { argv: operations::switch_to_remote_branch(local.as_str(), item) }
    } else if same(action_id, panel::ACTION_RENAME_BRANCH) {
        let mut title = owned("Rename ");
        push_str(&mut title, item);
        PanelPlan::Rename {
            prompt: InputPrompt { title, placeholder: Some(owned("new branch name")) },
            branch: owned(item),
        }
    } else if same(action_id, panel::ACTION_DELETE_BRANCH) {
        PanelPlan::DeleteBranch { branch: owned(item) }
    } else {
        PanelPlan::Ignore
    }
}

/// The rename a name typed into the rename dialog asks for: the branch to
/// the typed name, surrounding whitespace dropped.
pub fn rename_argv(branch: &str, answer: &str) -> (argv: Vec<String>)
    ensures
        strs(argv@) == seq!["branch"@, "--move"@, branch@, trim(answer@)],
{
    let name = trimmed(answer);
    operations::rename_branch(branch, name.as_str())
}

/// How many bytes `c` takes in UTF-8.
pub open spec fn utf8_width(c: char) -> nat {
    if (c as u32) < 0x80 { 1 } else if (c as u32) < 0x800 { 2 } else if (c as u32) < 0x10000 { 3 } else { 4 }
}

/// How many bytes `s` takes in UTF-8.
pub open spec fn utf8_len(s: Seq<char>) -> nat
    decreases s.len(),
{
    if s.len() == 0 { 0 } else { utf8_width(s[0]) + utf8_len(s.drop_first()) }
}

/// The characters of `s` that fit whole in its first `n` bytes.
pub open spec fn byte_prefix(s: Seq<char>, n: nat) -> Seq<char>
    decreases s.len(),
{
    if s.len() == 0 || n == 0 || utf8_width(s[0]) > n {
        Seq::empty()
    } else {
        seq![s[0]] + byte_prefix(s.drop_first(), (n - utf8_width(s[0])) as nat)
    }
}

/// The number of bytes of a commit id shown in the notice: eight, or fewer
/// when the id is shorter.
pub open spec fn shown_bytes(commit: Seq<char>) -> nat {
    if utf8_len(commit) < 8 { utf8_len(commit) } else { 8 }
}

/// The first eight bytes of `commit` end on a character boundary, which is
/// what `str` slicing requires. A commit hash is ASCII, so this always holds
/// for one.
pub open spec fn short_id_slices(commit: Seq<char>) -> bool {
    utf8_len(byte_prefix(commit, shown_bytes(commit))) == shown_bytes(commit)
}

fn width_of(c: char) -> (w: usize)
    ensures
        w == utf8_width(c),
{
    let code = c as u32;
    if code < 0x80 { 1 } else if code < 0x800 { 2 } else if code < 0x10000 { 3 } else { 4 }
}

/// The first eight bytes of a commit id, or all of it when shorter.
fn short_id(commit: &str) -> (s: String)
    requires
        short_id_slices(commit@),
    ensures
        s@ == byte_prefix(commit@, 8),
{
    let v = chars_of(commit);
    let mut used: usize = 0;
    let mut i: usize = 0;
    assert(v@.skip(0) =~= v@);
    assert(v@.take(0) + byte_prefix(v@, 8) =~= byte_prefix(v@, 8));
    while i < v.len() && used + width_of(v[i]) <= 8
        invariant
            0 <= i <= v@.len(),
            v@ == commit@,
            used <= 8,
            byte_prefix(v@, 8) == v@.take(i as int) + byte_prefix(v@.skip(i as int), (8 - used) as nat),
        decreases v@.len() - i,
    {
        let w = width_of(v[i]);
        proof {
            let rest = v@.skip(i as int);
            assert(rest[0] == v@[i as int]);
            assert(rest.drop_first() =~= v@.skip(i + 1));
            assert(byte_prefix(rest, (8 - used) as nat) == seq![v@[i as int]] + byte_prefix(v@.skip(i + 1), (8 - used - w) as nat));
            assert(v@.take(i as int) + (seq![v@[i as int]] + byte_prefix(v@.skip(i + 1), (8 - used - w) as nat))
                =~= v@.take(i + 1) + byte_prefix(v@.skip(i + 1), (8 - used - w) as nat));
        }
        used = used + w;
        i += 1;
    }
    proof {
        assert(byte_prefix(v@.skip(i as int), (8 - used) as nat) =~= Seq::<char>::empty());
        assert(v@.take(i as int) + Seq::<char>::empty() =~= v@.take(i as int));
        assert(v@.subrange(0, i as int) =~= v@.take(i as int));
    }
    string_of(&v, 0, i)
}

/// The notice shown when a commit row is opened: the commit diff is not
/// available yet, so the working tree was opened, and the commit asked for is
/// named by its first eight bytes.
pub fn commit_diff_notice(commit: &str) -> (n: Notice)
    requires
        short_id_slices(commit@),
    ensures
        notice_is(n, "Commit diffs are not available yet"@,
            Some("Opened the working tree instead. Viewing "@ + byte_prefix(commit@, 8) + " needs diff.openCommit."@),
            NotificationLevel::Info),
{
    let mut body = owned("Opened the working tree instead. Viewing ");
    let short = short_id(commit);
    push_str(&mut body, short.as_str());
    push_str(&mut body, " needs diff.openCommit.");
    Notice { title: owned("Commit diffs are not available yet"), body: Some(body), level: NotificationLevel::Info }
}

/// What a palette command asks of the plugin.
pub enum CommandPlan {
    Ignore,
    Refresh,
    /// Run Git, then report a failure and refresh.
    Run { argv: Vec<String> },
    Commit,
    Push,
    ForcePush,
    /// Ask for a name, then create and switch to that branch.
    CreateBranch { prompt: InputPrompt },
    SwitchBranch,
    Rebase,
}

/// A [`CommandPlan`] as plain values.
pub enum CommandPlanView {
    Ignore,
    Refresh,
    Run { argv: Seq<Seq<char>> },
    Commit,
    Push,
    ForcePush,
    CreateBranch { prompt: InputView },
    SwitchBranch,
    Rebase,
}

impl View for CommandPlan {
    type V = CommandPlanView;

    open spec fn view(&self) -> CommandPlanView {
        match self {
            CommandPlan::Ignore => CommandPlanView::Ignore,
            CommandPlan::Refresh => CommandPlanView::Refresh,
            CommandPlan::Run { argv } => CommandPlanView::Run { argv: strs(argv@) },
            CommandPlan::Commit => CommandPlanView::Commit,
            CommandPlan::Push => CommandPlanView::Push,
            CommandPlan::ForcePush => CommandPlanView::ForcePush,
            CommandPlan::CreateBranch { prompt } => CommandPlanView::CreateBranch { prompt: prompt@ },
            CommandPlan::SwitchBranch => CommandPlanView::SwitchBranch,
            CommandPlan::Rebase => CommandPlanView::Rebase,
        }
    }
}

/// What each declared command does.
pub open spec fn command_plan(id: Seq<char>) -> CommandPlanView {
    if id == "git.refresh"@ {
        CommandPlanView::Refresh
    } else if id == "git.stageAll"@ {
        CommandPlanView::Run { argv: seq!["add"@, "--all"@] }
    } else if id == "git.unstageAll"@ {
        CommandPlanView::Run { argv: seq!["reset"@, "--mixed"@, "HEAD"@] }
    } else if id == "git.commit"@ {
        CommandPlanView::Commit
    } else if id == "git.fetch"@ {
        CommandPlanView::Run { argv: seq!["fetch"@, "--prune"@] }
    } else if id == "git.pull"@ {
        CommandPlanView::Run { argv: seq!["pull"@, "--ff-only"@] }
    } else if id == "git.push"@ {
        CommandPlanView::Push
    } else if id == "git.forcePush"@ {
        CommandPlanView::ForcePush
    } else if id == "git.createBranch"@ {
        CommandPlanView::CreateBranch {
            prompt: InputView { title: "Create branch"@, placeholder: Some("branch name"@) },
        }
    } else if id == "git.switchBranch"@ {
        CommandPlanView::SwitchBranch
    } else if id == "git.rebase"@ {
        CommandPlanView::Rebase
    } else if id == "git.rebaseContinue"@ {
        CommandPlanView::Run { argv: seq!["rebase"@, "--continue"@] }
    } else if id == "git.rebaseAbort"@ {
        CommandPlanView::Run { argv: seq!["rebase"@, "--abort"@] }
    } else if id == "git.mergeAbort"@ {
        CommandPlanView::Run { argv: seq!["merge"@, "--abort"@] }
    } else {
        CommandPlanView::Ignore
    }
}

/// Staging and unstaging a row run the two Git calls that undo each other,
/// on exactly that row's path, whatever section the row is in and whichever
/// repository it came from: stage runs `git add -- <path>`, unstage runs
/// `git restore --staged -- <path>`, as [`operations::stage`] and
/// [`operations::unstage`] build them for the one path.
pub proof fn lemma_stage_and_unstage_run_on_the_row(section: Seq<char>, item: Seq<char>, root: Option<Seq<char>>)
    ensures
        panel_plan("stage"@, section, item, root) == (PanelPlanView::Run { argv: seq!["add"@, "--"@] + seq![item] }),
        panel_plan("unstage"@, section, item, root)
            == (PanelPlanView::Run { argv: seq!["restore"@, "--staged"@, "--"@] + seq![item] }),
{
    reveal_strlit("open_diff");
    reveal_strlit("open_file");
    reveal_strlit("open_commit");
    reveal_strlit("stage");
    reveal_strlit("unstage");
    // The actions checked first differ in length from these two.
    assert("open_diff"@.len() == 9 && "open_file"@.len() == 9 && "open_commit"@.len() == 11);
    assert("stage"@.len() == 5 && "unstage"@.len() == 7);
    assert("stage"@ != "open_diff"@ && "stage"@ != "open_file"@ && "stage"@ != "open_commit"@);
    assert("unstage"@ != "open_diff"@ && "unstage"@ != "open_file"@ && "unstage"@ != "open_commit"@);
    assert("unstage"@ != "stage"@);
    assert(seq!["add"@, "--"@] + seq![item] =~= seq!["add"@, "--"@, item]);
    assert(seq!["restore"@, "--staged"@, "--"@] + seq![item] =~= seq!["restore"@, "--staged"@, "--"@, item]);
}

/// Row actions that lose work ask first, and then act on exactly that row:
/// discarding a change confirms destructively before `git checkout --
/// <path>`, deleting an untracked file confirms destructively before `git
/// clean --force -- <path>`; switching runs `git switch <branch>` and
/// deleting a branch starts the delete escalation for that branch, whatever
/// section or repository the row came from.
pub proof fn lemma_row_actions_act_on_their_row(section: Seq<char>, item: Seq<char>, root: Option<Seq<char>>)
    ensures
        panel_plan("discard"@, section, item, root) matches PanelPlanView::ConfirmThenRun { confirm, argv }
            && confirm.destructive && argv == seq!["checkout"@, "--"@, item],
        panel_plan("delete_file"@, section, item, root) matches PanelPlanView::ConfirmThenRun { confirm, argv }
            && confirm.destructive && argv == seq!["clean"@, "--force"@, "--"@, item],
        panel_plan("switch_branch"@, section, item, root) == (PanelPlanView::Run { argv: seq!["switch"@, item] }),
        panel_plan("delete_branch"@, section, item, root) == (PanelPlanView::DeleteBranch { branch: item }),
{
    reveal_strlit("open_diff");
    reveal_strlit("open_file");
    reveal_strlit("open_commit");
    reveal_strlit("stage");
    reveal_strlit("unstage");
    reveal_strlit("discard");
    reveal_strlit("delete_file");
    reveal_strlit("switch_branch");
    reveal_strlit("checkout_remote");
    reveal_strlit("rename_branch");
    reveal_strlit("delete_branch");
    // Actions of one length differ in their first character.
    assert("open_diff"@.len() == 9 && "open_file"@.len() == 9 && "open_commit"@.len() == 11);
    assert("stage"@.len() == 5 && "unstage"@.len() == 7 && "discard"@.len() == 7);
    assert("delete_file"@.len() == 11 && "switch_branch"@.len() == 13 && "checkout_remote"@.len() == 15);
    assert("rename_branch"@.len() == 13 && "delete_branch"@.len() == 13);
    assert("discard"@[0] != "unstage"@[0]);
    assert("delete_file"@[0] != "open_commit"@[0]);
    assert("delete_branch"@[0] != "switch_branch"@[0] && "delete_branch"@[0] != "rename_branch"@[0]);
}

/// The palette's Git commands: fetch runs `git fetch --prune`, pull runs
/// `git pull --ff-only` (so the branch really moves, and only forward), and
/// no two palette commands run the same Git call.
pub proof fn lemma_palette_commands_run_their_own_git_call(a: Seq<char>, b: Seq<char>)
    ensures
        command_plan("git.fetch"@) == (CommandPlanView::Run { argv: seq!["fetch"@, "--prune"@] }),
        command_plan("git.pull"@) == (CommandPlanView::Run { argv: seq!["pull"@, "--ff-only"@] }),
        command_plan(a) is Run && command_plan(b) is Run && a != b
            ==> command_plan(a)->Run_argv != command_plan(b)->Run_argv,
{
    reveal_strlit("git.refresh");
    reveal_strlit("git.stageAll");
    reveal_strlit("git.unstageAll");
    reveal_strlit("git.commit");
    reveal_strlit("git.fetch");
    reveal_strlit("git.pull");
    reveal_strlit("add");
    reveal_strlit("reset");
    reveal_strlit("fetch");
    reveal_strlit("pull");
    reveal_strlit("rebase");
    reveal_strlit("merge");
    reveal_strlit("--all");
    reveal_strlit("--mixed");
    reveal_strlit("--prune");
    reveal_strlit("--ff-only");
    reveal_strlit("--continue");
    reveal_strlit("--abort");
    // The commands checked first differ in length from fetch and pull.
    assert("git.refresh"@.len() == 11 && "git.stageAll"@.len() == 12 && "git.unstageAll"@.len() == 14);
    assert("git.commit"@.len() == 10 && "git.fetch"@.len() == 9 && "git.pull"@.len() == 8);
    assert("git.fetch"@ != "git.refresh"@ && "git.fetch"@ != "git.stageAll"@ && "git.fetch"@ != "git.unstageAll"@
        && "git.fetch"@ != "git.commit"@);
    assert("git.pull"@ != "git.refresh"@ && "git.pull"@ != "git.stageAll"@ && "git.pull"@ != "git.unstageAll"@
        && "git.pull"@ != "git.commit"@ && "git.pull"@ != "git.fetch"@);
    reveal_strlit("git.rebaseContinue");
    reveal_strlit("git.rebaseAbort");
    reveal_strlit("git.mergeAbort");
    reveal_strlit("git.push");
    reveal_strlit("git.forcePush");
    reveal_strlit("git.createBranch");
    reveal_strlit("git.switchBranch");
    reveal_strlit("git.rebase");
    // Each command that runs Git runs a different first word, but for the two
    // rebase ones, whose second words differ.
    assert("add"@.len() == 3 && "reset"@.len() == 5 && "fetch"@.len() == 5 && "pull"@.len() == 4);
    assert("rebase"@.len() == 6 && "merge"@.len() == 5);
    assert("fetch"@[0] != "merge"@[0] && "fetch"@[0] != "reset"@[0] && "merge"@[0] != "reset"@[0]);
    assert("--continue"@.len() != "--abort"@.len());
    if command_plan(a) is Run && command_plan(b) is Run && a != b {
        let x = command_plan(a)->Run_argv;
        let y = command_plan(b)->Run_argv;
        if x == y {
            assert(x.len() == y.len() && x[0] == y[0]);
            assert(x.len() == 2 ==> x[1] == y[1]);
        }
    }
}

/// Decides what a palette command does; see [`command_plan`].
pub fn plan_command(command_id: &str) -> (p: CommandPlan)
    ensures
        p@ == command_plan(command_id@),
{
    if same(command_id, "git.refresh") {
        CommandPlan::Refresh
    } else if same(command_id, "git.stageAll") {
        CommandPlan::Run { argv: operations::stage_all() }
    } else if same(command_id, "git.unstageAll") {
        CommandPlan::Run { argv: operations::unstage_all() }
    } else if same(command_id, "git.commit") {
        CommandPlan::Commit
    } else if same(command_id, "git.fetch") {
        CommandPlan::Run { argv: operations::fetch() }
    } else if same(command_id, "git.pull") {
        CommandPlan::Run { argv: operations::pull() }
    } else if same(command_id, "git.push") {
        CommandPlan::Push
    } else if same(command_id, "git.forcePush") {
        CommandPlan::ForcePush
    } else if same(command_id, "git.createBranch") {
        CommandPlan::CreateBranch {
            prompt: InputPrompt { title: owned("Create branch"), placeholder: Some(owned("branch name")) },
        }
    } else if same(command_id, "git.switchBranch") {
        CommandPlan::SwitchBranch
    } else if same(command_id, "git.rebase") {
        CommandPlan::Rebase
    } else if same(command_id, "git.rebaseContinue") {
        CommandPlan::Run { argv: operations::rebase_continue() }
    } else if same(command_id, "git.rebaseAbort") {
        CommandPlan::Run { argv: operations::rebase_abort() }
    } else if same(command_id, "git.mergeAbort") {
        CommandPlan::Run { argv: operations::merge_abort() }
    } else {
        CommandPlan::Ignore
    }
}

/// The branch a name typed into the create dialog asks for, surrounding
/// whitespace dropped.
pub fn create_argv(answer: &str) -> (argv: Vec<String>)
    ensures
        strs(argv@) == seq!["switch"@, "--create"@, trim(answer@)],
{
    let name = trimmed(answer);
    operations::create_branch(name.as_str())
}

/// How many files are staged in the state last read; none when nothing was read.
pub open spec fn staged_count(state: Option<RepositoryState>) -> nat {
    match state {
        Some(s) => s.status.staged@.len(),
        None => 0,
    }
}

pub open spec fn opt_state(state: Option<&RepositoryState>) -> Option<RepositoryState> {
    match state {
        Some(s) => Some(*s),
        None => None,
    }
}

/// The first step of committing: with nothing staged, a warning; otherwise
/// the dialog asking for the message, naming how many files it commits.
pub fn commit_prompt(state: Option<&RepositoryState>) -> (r: Result<InputPrompt, Notice>)
    ensures
        staged_count(opt_state(state)) == 0 ==> (r matches Err(n)
            && notice_is(n, "Nothing staged to commit"@, Some("Stage a file first."@), NotificationLevel::Warning)),
        staged_count(opt_state(state)) > 0 ==> (r matches Ok(p) && input_is(p,
            "Commit "@ + decimal(staged_count(opt_state(state))) + " staged file(s)"@, "commit message"@)),
{
    let staged: usize = match state {
        Some(s) => s.status.staged.len(),
        None => 0,
    };
    if staged == 0 {
        return Err(Notice {
            title: owned("Nothing staged to commit"),
            body: Some(owned("Stage a file first.")),
            level: NotificationLevel::Warning,
        });
    }
    let mut title = owned("Commit ");
    push_decimal(&mut title, staged as u64);
    push_str(&mut title, " staged file(s)");
    Ok(InputPrompt { title, placeholder: Some(owned("commit message")) })
}

/// The commit a typed message asks for: refused with a warning when the
/// message is blank, otherwise committed with the message trimmed.
pub fn commit_from_message(message: &str) -> (r: Result<Vec<String>, Notice>)
    ensures
        trim(message@).len() == 0 ==> (r matches Err(n)
            && notice_is(n, "Commit cancelled"@, Some("A commit message is required."@), NotificationLevel::Warning)),
        trim(message@).len() > 0 ==> (r matches Ok(argv) && strs(argv@) == seq!["commit"@, "--message"@, trim(message@)]),
{
    let trimmed_message = trimmed(message);
    if trimmed_message.as_str().is_empty() {
        return Err(Notice {
            title: owned("Commit cancelled"),
            body: Some(owned("A commit message is required.")),
            level: NotificationLevel::Warning,
        });
    }
    Ok(operations::commit(trimmed_message.as_str()))
}

/// How a push proceeds.
pub enum PushPlan {
    /// The branch tracks an upstream: push to it.
    Push { argv: Vec<String> },
    /// No upstream yet: ask once, then push and set one.
    SetUpstream { confirm: ConfirmPrompt, argv: Vec<String> },
    /// Nothing sensible to push to.
    Refuse { notice: Notice },
}

/// Pushes, setting an upstream when the branch has none.
///
/// A plain `git push` on an unconfigured branch fails with advice the user
/// would have to read in a terminal; asking once is better than surfacing
/// that as an error.
pub fn push_plan(state: Option<&RepositoryState>) -> (p: PushPlan)
    ensures
        match opt_state(state) {
            Some(s) if s.status.branch.upstream is Some => p matches PushPlan::Push { argv } && strs(argv@) == seq!["push"@],
            Some(s) => match (s.status.branch.head, spec_default_remote(strs(s.remotes@))) {
                (Some(head), Some(remote)) => p matches PushPlan::SetUpstream { confirm, argv }
                    && confirm_is(confirm, "Push "@ + head@ + " to "@ + remote + "?"@,
                        Some(head@ + " has no upstream. This will set "@ + remote + "/"@ + head@ + "."@), "Push"@, false)
                    && strs(argv@) == seq!["push"@, "--set-upstream"@, remote, head@],
                _ => p matches PushPlan::Refuse { notice } && notice_is(notice, "Cannot push"@,
                    Some("This branch has no upstream and no default remote."@), NotificationLevel::Warning),
            },
            None => p matches PushPlan::Refuse { notice } && notice_is(notice, "Cannot push"@,
                Some("This branch has no upstream and no default remote."@), NotificationLevel::Warning),
        },
{
    let refuse = Notice {
        title: owned("Cannot push"),
        body: Some(owned("This branch has no upstream and no default remote.")),
        level: NotificationLevel::Warning,
    };
    let Some(s) = state else {
        return PushPlan::Refuse { notice: refuse };
    };
    if s.status.branch.upstream.is_some() {
        return PushPlan::Push { argv: operations::push() };
    }
    let (Some(head), Some(remote)) = (&s.status.branch.head, s.default_remote()) else {
        return PushPlan::Refuse { notice: refuse };
    };
    let mut title = owned("Push ");
    push_str(&mut title, head.as_str());
    push_str(&mut title, " to ");
    push_str(&mut title, remote);
    push_str(&mut title, "?");
    let mut body = head.clone();
    push_str(&mut body, " has no upstream. This will set ");
    push_str(&mut body, remote);
    push_str(&mut body, "/");
    push_str(&mut body, head.as_str());
    push_str(&mut body, ".");
    PushPlan::SetUpstream {
        confirm: ConfirmPrompt { title, body: Some(body), confirm_label: owned("Push"), destructive: false },
        argv: operations::push_setting_upstream(remote, head.as_str()),
    }
}

/// How a force push proceeds.
pub enum ForcePushPlan {
    /// Nothing was read yet, so there is nothing to push.
    Ignore,
    /// No upstream to force-update.
    Refuse { notice: Notice },
    /// Ask, naming the branch, the upstream and what would be rewritten.
    Confirm { confirm: ConfirmPrompt, argv: Vec<String> },
}

/// What a force push would do to the upstream, as the confirmation says it.
pub open spec fn rewrite_sentence(head: Seq<char>, upstream: Seq<char>, behind: u32) -> Seq<char> {
    if behind > 0 {
        "This rewrites "@ + decimal(behind as nat) + " commit(s) already on "@ + upstream + "."@
    } else {
        upstream + " has no commits that "@ + head + " does not."@
    }
}

/// Force-updates the remote branch, never with plain `--force`.
///
/// `--force-with-lease` refuses when the remote moved since the last fetch,
/// so a teammate's commits cannot be discarded by a user who has not looked
/// at the remote recently. The confirmation names the branch, the remote and
/// whether remote history is being rewritten, because those are the three
/// facts that decide whether this is safe.
pub fn force_push_plan(state: Option<&RepositoryState>) -> (p: ForcePushPlan)
    ensures
        match opt_state(state) {
            None => p is Ignore,
            Some(s) => match (s.status.branch.head, s.status.branch.upstream) {
                (Some(head), Some(upstream)) => p matches ForcePushPlan::Confirm { confirm, argv }
                    && confirm_is(confirm, "Force push "@ + head@ + " to "@ + upstream@ + "?"@,
                        Some(rewrite_sentence(head@, upstream@, s.status.branch.behind)
                            + "\nUses --force-with-lease, so it will refuse if "@ + upstream@
                            + " moved since your last fetch."@), "Force Push"@, true)
                    && strs(argv@) == seq!["push"@, "--force-with-lease"@],
                _ => p matches ForcePushPlan::Refuse { notice } && notice_is(notice, "Cannot force push"@,
                    Some("This branch has no upstream to force-update."@), NotificationLevel::Warning),
            },
        },
{
    let Some(s) = state else {
        return ForcePushPlan::Ignore;
    };
    let (Some(head), Some(upstream)) = (&s.status.branch.head, &s.status.branch.upstream) else {
        return ForcePushPlan::Refuse {
            notice: Notice {
                title: owned("Cannot force push"),
                body: Some(owned("This branch has no upstream to force-update.")),
                level: NotificationLevel::Warning,
            },
        };
    };
    let behind = s.status.branch.behind;
    let mut body = if behind > 0 {
        let mut t = owned("This rewrites ");
        push_decimal(&mut t, behind as u64);
        push_str(&mut t, " commit(s) already on ");
        push_str(&mut t, upstream.as_str());
        push_str(&mut t, ".");
        t
    } else {
        let mut t = upstream.clone();
        push_str(&mut t, " has no commits that ");
        push_str(&mut t, head.as_str());
        push_str(&mut t, " does not.");
        t
    };
    push_str(&mut body, "\nUses --force-with-lease, so it will refuse if ");
    push_str(&mut body, upstream.as_str());
    push_str(&mut body, " moved since your last fetch.");
    let mut title = owned("Force push ");
    push_str(&mut title, head.as_str());
    push_str(&mut title, " to ");
    push_str(&mut title, upstream.as_str());
    push_str(&mut title, "?");
    ForcePushPlan::Confirm {
        confirm: ConfirmPrompt { title, body: Some(body), confirm_label: owned("Force Push"), destructive: true },
        argv: operations::force_push_with_lease(),
    }
}

/// A select-dialog option as plain values.
pub struct OptionView {
    pub id: Seq<char>,
    pub label: Seq<char>,
    pub description: Option<Seq<char>>,
}

pub open spec fn option_view(o: DialogSelectOption) -> OptionView {
    OptionView { id: o.id@, label: o.label@, description: o.description.deep_view() }
}

/// The local branches a user can move to: every one but the checked-out
/// branch, in order.
pub open spec fn other_locals(branches: Seq<SpecBranch>) -> Seq<SpecBranch>
    decreases branches.len(),
{
    if branches.len() == 0 {
        Seq::empty()
    } else if branches.last().is_head {
        other_locals(branches.drop_last())
    } else {
        other_locals(branches.drop_last()).push(branches.last())
    }
}

/// The branches offered by the switch and rebase dialogs.
pub open spec fn offered(state: Option<RepositoryState>) -> Seq<SpecBranch> {
    match state {
        Some(s) => other_locals(in_scope(branches_view(s.branches@), BranchScope::Local)),
        None => Seq::empty(),
    }
}

/// The option offering a branch; `described` adds its subject when it has one.
pub open spec fn branch_option(b: SpecBranch, described: bool) -> OptionView {
    OptionView {
        id: b.name,
        label: b.name,
        description: if described && b.subject.len() > 0 { Some(b.subject) } else { None },
    }
}

fn branch_options(state: Option<&RepositoryState>, described: bool) -> (v: Vec<DialogSelectOption>)
    ensures
        v@.len() == offered(opt_state(state)).len(),
        forall|k: int| 0 <= k < v@.len() ==> option_view(#[trigger] v@[k]) == branch_option(offered(opt_state(state))[k], described),
{
    let mut v: Vec<DialogSelectOption> = Vec::new();
    let Some(s) = state else {
        return v;
    };
    let locals = s.local_branches();
    let ghost all = in_scope(branches_view(s.branches@), BranchScope::Local);
    let mut i: usize = 0;
    while i < locals.len()
        invariant
            0 <= i <= locals@.len(),
            locals@.map_values(|b: &Branch| b@) == all,
            v@.len() == other_locals(all.take(i as int)).len(),
            forall|k: int| 0 <= k < v@.len() ==> option_view(#[trigger] v@[k]) == branch_option(other_locals(all.take(i as int))[k], described),
        decreases locals@.len() - i,
    {
        let b = locals[i];
        assert(all.take(i + 1).drop_last() =~= all.take(i as int));
        assert(all.take(i + 1).last() == b@);
        if !b.is_head {
            let description = if described && !b.subject.as_str().is_empty() { Some(b.subject.clone()) } else { None };
            v.push(DialogSelectOption { id: b.name.clone(), label: b.name.clone(), description });
        }
        i += 1;
    }
    assert(all.take(locals@.len() as int) =~= all);
    v
}

/// The switch dialog's options, or a notice when there is no other branch.
pub fn switch_options(state: Option<&RepositoryState>) -> (r: Result<Vec<DialogSelectOption>, Notice>)
    ensures
        offered(opt_state(state)).len() == 0 ==> (r matches Err(n)
            && notice_is(n, "No other branches"@, None, NotificationLevel::Info)),
        offered(opt_state(state)).len() > 0 ==> (r matches Ok(v) && v@.len() == offered(opt_state(state)).len()
            && forall|k: int| 0 <= k < v@.len() ==> option_view(#[trigger] v@[k]) == branch_option(offered(opt_state(state))[k], true)),
{
    let v = branch_options(state, true);
    if v.len() == 0 {
        return Err(Notice { title: owned("No other branches"), body: None, level: NotificationLevel::Info });
    }
    Ok(v)
}

/// The rebase dialog's options: the other local branches, undescribed.
pub fn rebase_options(state: Option<&RepositoryState>) -> (v: Vec<DialogSelectOption>)
    ensures
        v@.len() == offered(opt_state(state)).len(),
        forall|k: int| 0 <= k < v@.len() ==> option_view(#[trigger] v@[k]) == branch_option(offered(opt_state(state))[k], false),
{
    branch_options(state, false)
}

/// What the user is told after a rebase. A rebase that stops on a conflict
/// is a normal outcome, not a failure to report as one; the panel shows the
/// conflicts after the refresh that follows.
pub fn rebase_notice(base: &str, outcome: &Result<(), GitError>) -> (n: Notice)
    ensures
        outcome is Ok ==> notice_is(n, "Rebased onto "@ + base@, None, NotificationLevel::Info),
        outcome matches Err(e) ==> notice_is(n, "Rebase paused"@,
            Some(fault_summary(e@) + "\nResolve the conflicts, then continue."@), NotificationLevel::Warning),
{
    match outcome {
        Ok(()) => {
            let mut title = owned("Rebased onto ");
            push_str(&mut title, base);
            Notice { title, body: None, level: NotificationLevel::Info }
        },
        Err(error) => {
            let mut body = error.summary();
            push_str(&mut body, "\nResolve the conflicts, then continue.");
            Notice { title: owned("Rebase paused"), body: Some(body), level: NotificationLevel::Warning }
        },
    }
}

/// The first, ordinary confirmation before deleting a branch.
pub fn delete_branch_confirm(branch: &str) -> (c: ConfirmPrompt)
    ensures
        confirm_is(c, "Delete branch \""@ + branch@ + "\"?"@, None, "Delete"@, true),
{
    let mut title = owned("Delete branch \"");
    push_str(&mut title, branch);
    push_str(&mut title, "\"?");
    ConfirmPrompt { title, body: None, confirm_label: owned("Delete"), destructive: true }
}

/// What the force-delete confirmation says the branch holds: how many
/// commits are not merged into the base, when both are known.
pub open spec fn unmerged_detail(branch: Seq<char>, base: Option<Seq<char>>, unmerged: Option<u32>) -> Seq<char> {
    match (base, unmerged) {
        (Some(b), Some(count)) => "\""@ + branch + "\" has "@ + decimal(count as nat) + " commit(s) not merged into "@ + b
            + ". Deleting it may make them hard to recover."@,
        _ => "\""@ + branch + "\" contains commits that are not merged anywhere else."@,
    }
}

/// The second, stronger confirmation after a safe delete was refused,
/// telling the user exactly what a force delete would discard.
pub fn force_delete_confirm(branch: &str, base: Option<&str>, unmerged: Option<u32>) -> (c: ConfirmPrompt)
    ensures
        confirm_is(c, "Force delete \""@ + branch@ + "\"?"@, Some(unmerged_detail(branch@, opt_str(base), unmerged)),
            "Force Delete"@, true),
{
    let detail = match (base, unmerged) {
        (Some(b), Some(count)) => {
            let mut d = owned("\"");
            push_str(&mut d, branch);
            push_str(&mut d, "\" has ");
            push_decimal(&mut d, count as u64);
            push_str(&mut d, " commit(s) not merged into ");
            push_str(&mut d, b);
            push_str(&mut d, ". Deleting it may make them hard to recover.");
            d
        },
        _ => {
            let mut d = owned("\"");
            push_str(&mut d, branch);
            push_str(&mut d, "\" contains commits that are not merged anywhere else.");
            d
        },
    };
    let mut title = owned("Force delete \"");
    push_str(&mut title, branch);
    push_str(&mut title, "\"?");
    ConfirmPrompt { title, body: Some(detail), confirm_label: owned("Force Delete"), destructive: true }
}

/// The base a force delete is measured against: the repository's default
/// base branch, when one was read.
pub fn delete_base(state: Option<&RepositoryState>) -> (b: Option<String>)
    ensures
        b.deep_view() == match opt_state(state) {
            Some(s) => spec_default_base(branches_view(s.branches@)),
            None => None,
        },
{
    match state {
        Some(s) => match s.default_base_branch() {
            Some(name) => Some(owned(name)),
            None => None,
        },
        None => None,
    }
}

/// Where deleting a branch stands. A delete escalates in order: the user
/// confirms, a safe delete runs, and only when Git refuses it is the user
/// told what a force delete would discard and asked again.
#[derive(Debug, Clone, Copy, PartialEq, Eq, Structural)]
pub enum DeleteStep {
    /// Waiting for the answer to the first confirmation.
    AwaitConfirm,
    /// Waiting for the safe delete's exit code.
    AwaitSafeDelete,
    /// Waiting for the count of commits the base does not hold.
    AwaitCount,
    /// Waiting for the answer to the force-delete confirmation.
    AwaitForceConfirm,
    /// Nothing more to do.
    Done,
}

/// What came back from the last [`DeleteAction`].
#[derive(Debug, Clone, Copy, PartialEq, Eq, Structural)]
pub enum DeleteEvent {
    /// The user's answer to a confirmation.
    Answered(bool),
    /// The safe delete's exit code, when the process reported one.
    SafeDeleteExited(Option<i32>),
    /// The commit count, when it could be read.
    Counted(Option<u32>),
}

/// What deleting a branch asks of the plugin next.
pub enum DeleteAction {
    /// Ask for confirmation; answer with [`DeleteEvent::Answered`].
    Ask(ConfirmPrompt),
    /// Run the safe delete; answer with [`DeleteEvent::SafeDeleteExited`].
    SafeDelete(Vec<String>),
    /// Run the count; answer with [`DeleteEvent::Counted`] of its output.
    Count(Vec<String>),
    /// Run the force delete, report a failure, and refresh.
    ForceDelete(Vec<String>),
    /// The branch is gone: refresh.
    Refresh,
    /// Stop without doing anything more.
    Stop,
}

/// The first step of deleting `branch`: ask.
pub fn delete_start(branch: &str) -> (r: (DeleteStep, DeleteAction))
    ensures
        r.0 == DeleteStep::AwaitConfirm,
        r.1 matches DeleteAction::Ask(c) && confirm_is(c, "Delete branch \""@ + branch@ + "\"?"@, None, "Delete"@, true),
{
    (DeleteStep::AwaitConfirm, DeleteAction::Ask(delete_branch_confirm(branch)))
}

/// The next step of deleting `branch`, measured against `base`, given where
/// the delete stands and what came back. Anything out of turn stops it.
pub fn delete_step(branch: &str, base: Option<&str>, step: DeleteStep, event: DeleteEvent) -> (r: (DeleteStep, DeleteAction))
    ensures
        match (step, event) {
            (DeleteStep::AwaitConfirm, DeleteEvent::Answered(true)) => {
                &&& r.0 == DeleteStep::AwaitSafeDelete
                &&& r.1 matches DeleteAction::SafeDelete(argv) && strs(argv@) == seq!["branch"@, "--delete"@, branch@]
            },
            (DeleteStep::AwaitSafeDelete, DeleteEvent::SafeDeleteExited(code)) => if code == Some(0i32) {
                r.0 == DeleteStep::Done && r.1 is Refresh
            } else {
                match base {
                    Some(b) => {
                        &&& r.0 == DeleteStep::AwaitCount
                        &&& r.1 matches DeleteAction::Count(argv)
                            && strs(argv@) == seq!["rev-list"@, "--count"@, b@ + ".."@ + branch@]
                    },
                    None => {
                        &&& r.0 == DeleteStep::AwaitForceConfirm
                        &&& r.1 matches DeleteAction::Ask(c) && confirm_is(c, "Force delete \""@ + branch@ + "\"?"@,
                            Some(unmerged_detail(branch@, None, None)), "Force Delete"@, true)
                    },
                }
            },
            (DeleteStep::AwaitCount, DeleteEvent::Counted(count)) => {
                &&& r.0 == DeleteStep::AwaitForceConfirm
                &&& r.1 matches DeleteAction::Ask(c) && confirm_is(c, "Force delete \""@ + branch@ + "\"?"@,
                    Some(unmerged_detail(branch@, opt_str(base), count)), "Force Delete"@, true)
            },
            (DeleteStep::AwaitForceConfirm, DeleteEvent::Answered(true)) => {
                &&& r.0 == DeleteStep::Done
                &&& r.1 matches DeleteAction::ForceDelete(argv)
                    && strs(argv@) == seq!["branch"@, "--delete"@, "--force"@, branch@]
            },
            _ => r.0 == DeleteStep::Done && r.1 is Stop,
        },
        r.1 is ForceDelete ==> step == DeleteStep::AwaitForceConfirm && event == DeleteEvent::Answered(true),
{
    match (step, event) {
        (DeleteStep::AwaitConfirm, DeleteEvent::Answered(true)) => {
            (DeleteStep::AwaitSafeDelete, DeleteAction::SafeDelete(operations::delete_branch(branch)))
        },
        (DeleteStep::AwaitSafeDelete, DeleteEvent::SafeDeleteExited(code)) => {
            if code == Some(0i32) {
                (DeleteStep::Done, DeleteAction::Refresh)
            } else {
                match base {
                    Some(b) => (DeleteStep::AwaitCount, DeleteAction::Count(operations::unmerged_commit_count(branch, b))),
                    None => (DeleteStep::AwaitForceConfirm, DeleteAction::Ask(force_delete_confirm(branch, None, None))),
                }
            }
        },
        (DeleteStep::AwaitCount, DeleteEvent::Counted(count)) => {
            (DeleteStep::AwaitForceConfirm, DeleteAction::Ask(force_delete_confirm(branch, base, count)))
        },
        (DeleteStep::AwaitForceConfirm, DeleteEvent::Answered(true)) => {
            (DeleteStep::Done, DeleteAction::ForceDelete(operations::force_delete_branch(branch)))
        },
        _ => (DeleteStep::Done, DeleteAction::Stop),
    }
}

/// How a failed Git command is surfaced: Git's own first line as the
/// summary, so the message matches what the terminal would have said.
pub fn failure_notice(error: &GitError) -> (n: Notice)
    ensures
        notice_is(n, "Git command failed"@, Some(fault_summary(error@)), NotificationLevel::Error),
{
    Notice { title: owned("Git command failed"), body: Some(error.summary()), level: NotificationLevel::Error }
}

} // verus!
