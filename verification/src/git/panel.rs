//! Renders [`RepositoryState`] into the panel model Warp draws.
//!
//! The plugin supplies structure and labels only. Loading, empty and error
//! presentation belong to Warp, so an extension panel looks like a built-in one.
use vstd::prelude::*;

use crate::git::branches::{Branch, SpecBranch, branches_view};
use crate::git::commits::{Commit, SpecCommit, commits_view};
use crate::git::state::{RepositoryState, first_head, in_scope, operation_label, spec_head_summary};
use crate::git::status::{ChangeKind, FileChange, SpecFileChange, change_code, changes_view};
use crate::git::branches::BranchScope;
use crate::protocol::methods::{PanelItem, PanelItemAction, PanelSection, PanelStatus, PanelViewState};
use crate::text::{decimal, owned, push_decimal, push_str, same};

verus! {

pub const PANEL_ID: &'static str = "git";

pub const SECTION_SUMMARY: &'static str = "git.summary";
pub const SECTION_STAGED: &'static str = "git.staged";
pub const SECTION_UNSTAGED: &'static str = "git.unstaged";
pub const SECTION_UNTRACKED: &'static str = "git.untracked";
pub const SECTION_CONFLICTS: &'static str = "git.conflicts";
pub const SECTION_BRANCHES: &'static str = "git.branches";
pub const SECTION_REMOTE_BRANCHES: &'static str = "git.remoteBranches";
pub const SECTION_HISTORY: &'static str = "git.history";

pub const ACTION_OPEN_DIFF: &'static str = "open_diff";
pub const ACTION_OPEN_FILE: &'static str = "open_file";
pub const ACTION_STAGE: &'static str = "stage";
pub const ACTION_UNSTAGE: &'static str = "unstage";
pub const ACTION_DISCARD: &'static str = "discard";
pub const ACTION_DELETE_FILE: &'static str = "delete_file";
pub const ACTION_SWITCH_BRANCH: &'static str = "switch_branch";
pub const ACTION_DELETE_BRANCH: &'static str = "delete_branch";
pub const ACTION_RENAME_BRANCH: &'static str = "rename_branch";
pub const ACTION_CHECKOUT_REMOTE: &'static str = "checkout_remote";
pub const ACTION_OPEN_COMMIT: &'static str = "open_commit";

/// A row action as plain values; the icon is always absent.
pub struct RowAction {
    pub id: Seq<char>,
    pub title: Seq<char>,
    pub destructive: bool,
}

/// A panel row as plain values: a leaf, never expanded, always with an icon.
pub struct Row {
    pub id: Seq<char>,
    pub label: Seq<char>,
    pub description: Option<Seq<char>>,
    pub icon: Seq<char>,
    pub badge: Option<Seq<char>>,
    pub actions: Seq<RowAction>,
}

pub struct SectionModel {
    pub id: Seq<char>,
    pub title: Seq<char>,
    pub badge: Option<Seq<char>>,
    pub rows: Seq<Row>,
}

pub enum StatusModel {
    Loading,
    Ready,
    Empty(Seq<char>),
    Error(Seq<char>),
}

/// A view of the `git` panel as plain values.
pub struct PanelModel {
    pub status: StatusModel,
    pub sections: Seq<SectionModel>,
}

pub open spec fn action_is(a: PanelItemAction, m: RowAction) -> bool {
    &&& a.id@ == m.id
    &&& a.title@ == m.title
    &&& a.icon is None
    &&& a.destructive == m.destructive
}

pub open spec fn row_is(it: PanelItem, m: Row) -> bool {
    &&& it.id@ == m.id
    &&& it.label@ == m.label
    &&& it.description.deep_view() == m.description
    &&& it.icon.deep_view() == Some(m.icon)
    &&& it.badge.deep_view() == m.badge
    &&& it.actions@.len() == m.actions.len()
    &&& forall|k: int| 0 <= k < m.actions.len() ==> action_is(#[trigger] it.actions@[k], m.actions[k])
    &&& it.children@.len() == 0
    &&& !it.expanded
}

pub open spec fn section_is(s: PanelSection, m: SectionModel) -> bool {
    &&& s.id@ == m.id
    &&& s.title@ == m.title
    &&& s.badge.deep_view() == m.badge
    &&& s.items@.len() == m.rows.len()
    &&& forall|k: int| 0 <= k < m.rows.len() ==> row_is(#[trigger] s.items@[k], m.rows[k])
}

pub open spec fn status_is(s: PanelStatus, m: StatusModel) -> bool {
    match (s, m) {
        (PanelStatus::Loading, StatusModel::Loading) => true,
        (PanelStatus::Ready, StatusModel::Ready) => true,
        (PanelStatus::Empty { message }, StatusModel::Empty(t)) => message@ == t,
        (PanelStatus::Error { message }, StatusModel::Error(t)) => message@ == t,
        _ => false,
    }
}

/// `v` is the `git` panel showing exactly `m`.
pub open spec fn panel_is(v: PanelViewState, m: PanelModel) -> bool {
    &&& v.panel_id@ == "git"@
    &&& status_is(v.status, m.status)
    &&& v.sections@.len() == m.sections.len()
    &&& forall|k: int| 0 <= k < m.sections.len() ==> section_is(#[trigger] v.sections@[k], m.sections[k])
}

/// The title and destructiveness of each row action; an unknown id is its
/// own title.
pub open spec fn action_model(id: Seq<char>) -> RowAction {
    let (title, destructive) = if id == "open_diff"@ {
        ("Open diff"@, false)
    } else if id == "open_file"@ {
        ("Open file"@, false)
    } else if id == "stage"@ {
        ("Stage"@, false)
    } else if id == "unstage"@ {
        ("Unstage"@, false)
    } else if id == "discard"@ {
        ("Discard changes"@, true)
    } else if id == "delete_file"@ {
        ("Delete file"@, true)
    } else if id == "switch_branch"@ {
        ("Switch to branch"@, false)
    } else if id == "delete_branch"@ {
        ("Delete branch"@, true)
    } else if id == "rename_branch"@ {
        ("Rename branch"@, false)
    } else if id == "checkout_remote"@ {
        ("Check out locally"@, false)
    } else if id == "open_commit"@ {
        ("Open commit diff"@, false)
    } else {
        (id, false)
    };
    RowAction { id, title, destructive }
}

pub open spec fn icon_name(kind: ChangeKind) -> Seq<char> {
    match kind {
        ChangeKind::Added => "added"@,
        ChangeKind::Modified => "modified"@,
        ChangeKind::Deleted => "deleted"@,
        ChangeKind::Renamed => "renamed"@,
        ChangeKind::Copied => "copied"@,
        ChangeKind::TypeChanged => "modified"@,
        ChangeKind::Untracked => "untracked"@,
        ChangeKind::Conflicted => "conflict"@,
    }
}

pub open spec fn actions_model(ids: Seq<Seq<char>>) -> Seq<RowAction> {
    ids.map_values(|id: Seq<char>| action_model(id))
}

/// A changed path: addressed and labelled by its repository-relative path.
pub open spec fn change_row(c: SpecFileChange, actions: Seq<Seq<char>>) -> Row {
    Row {
        id: c.path,
        label: c.path,
        description: match c.original_path {
            Some(original) => Some("renamed from "@ + original),
            None => None,
        },
        icon: icon_name(c.kind),
        badge: Some(change_code(c.kind)),
        actions: actions_model(actions),
    }
}

pub open spec fn change_section_model(
    id: Seq<char>,
    title: Seq<char>,
    changes: Seq<SpecFileChange>,
    actions: Seq<Seq<char>>,
) -> SectionModel {
    SectionModel {
        id,
        title,
        badge: Some(decimal(changes.len())),
        rows: changes.map_values(|c: SpecFileChange| change_row(c, actions)),
    }
}

/// The description of a branch row: its subject, unless that is empty.
pub open spec fn subject_description(subject: Seq<char>) -> Option<Seq<char>> {
    if subject.len() == 0 { None } else { Some(subject) }
}

pub open spec fn local_branch_row(b: SpecBranch) -> Row {
    Row {
        id: b.name,
        label: b.name,
        description: subject_description(b.subject),
        icon: if b.is_head { "branch-current"@ } else { "branch"@ },
        badge: b.upstream,
        actions: if b.is_head {
            actions_model(seq!["rename_branch"@])
        } else {
            actions_model(seq!["switch_branch"@, "rename_branch"@, "delete_branch"@])
        },
    }
}

pub open spec fn remote_branch_row(b: SpecBranch) -> Row {
    Row {
        id: b.name,
        label: b.name,
        description: subject_description(b.subject),
        icon: "branch-remote"@,
        badge: None,
        actions: actions_model(seq!["checkout_remote"@]),
    }
}

pub open spec fn history_row(c: SpecCommit) -> Row {
    Row {
        id: c.hash,
        label: c.subject,
        description: Some(c.short_hash + " \u{b7} "@ + c.author + " \u{b7} "@ + c.age),
        icon: "commit"@,
        badge: None,
        actions: actions_model(seq!["open_commit"@]),
    }
}

pub open spec fn local_branches_of(s: RepositoryState) -> Seq<SpecBranch> {
    in_scope(branches_view(s.branches@), BranchScope::Local)
}

pub open spec fn remote_branches_of(s: RepositoryState) -> Seq<SpecBranch> {
    in_scope(branches_view(s.branches@), BranchScope::Remote)
}

/// The header: where HEAD is, and a paused operation when there is one.
pub open spec fn summary_model(s: RepositoryState) -> SectionModel {
    let branches = branches_view(s.branches@);
    let head = Row {
        id: "head"@,
        label: spec_head_summary(s),
        description: match first_head(branches) {
            Some(i) => Some(branches[i].short_commit + " "@ + branches[i].subject),
            None => None,
        },
        icon: "branch-current"@,
        badge: None,
        actions: Seq::empty(),
    };
    let operation = Row {
        id: "operation"@,
        label: operation_label(s.operation) + " in progress"@,
        description: Some("Resolve the conflicts, then continue or abort."@),
        icon: "conflict"@,
        badge: None,
        actions: Seq::empty(),
    };
    let st = s.status@;
    let total = st.staged.len() + st.unstaged.len() + st.untracked.len() + st.conflicts.len();
    SectionModel {
        id: "git.summary"@,
        title: "Repository"@,
        badge: if total == 0 { None } else { Some(decimal(total)) },
        rows: if s.operation != crate::git::state::Operation::Idle { seq![head, operation] } else { seq![head] },
    }
}

pub open spec fn when(cond: bool, section: SectionModel) -> Seq<SectionModel> {
    if cond { seq![section] } else { Seq::empty() }
}

/// The sections of a readable repository, in display order: conflicts first
/// among the changes, since nothing else behaves normally until they are
/// resolved.
pub open spec fn sections_model(s: RepositoryState) -> Seq<SectionModel> {
    let st = s.status@;
    let remotes = remote_branches_of(s);
    let history = commits_view(s.history@);
    seq![summary_model(s)]
        + when(st.conflicts.len() > 0, change_section_model("git.conflicts"@, "Conflicts"@, st.conflicts,
            seq!["open_file"@, "open_diff"@, "stage"@]))
        + when(st.staged.len() > 0, change_section_model("git.staged"@, "Staged"@, st.staged,
            seq!["open_diff"@, "unstage"@, "open_file"@]))
        + when(st.unstaged.len() > 0, change_section_model("git.unstaged"@, "Changes"@, st.unstaged,
            seq!["open_diff"@, "stage"@, "discard"@, "open_file"@]))
        + when(st.untracked.len() > 0, change_section_model("git.untracked"@, "Untracked"@, st.untracked,
            seq!["open_file"@, "stage"@, "delete_file"@]))
        + seq![branch_section_model(s)]
        + when(remotes.len() > 0, remote_section_model(s))
        + when(history.len() > 0, history_section_model(s))
}

pub open spec fn branch_section_model(s: RepositoryState) -> SectionModel {
    let locals = local_branches_of(s);
    SectionModel {
        id: "git.branches"@,
        title: "Branches"@,
        badge: Some(decimal(locals.len())),
        rows: locals.map_values(|b: SpecBranch| local_branch_row(b)),
    }
}

pub open spec fn remote_section_model(s: RepositoryState) -> SectionModel {
    let remotes = remote_branches_of(s);
    SectionModel {
        id: "git.remoteBranches"@,
        title: "Remote branches"@,
        badge: Some(decimal(remotes.len())),
        rows: remotes.map_values(|b: SpecBranch| remote_branch_row(b)),
    }
}

pub open spec fn history_section_model(s: RepositoryState) -> SectionModel {
    let history = commits_view(s.history@);
    SectionModel {
        id: "git.history"@,
        title: "History"@,
        badge: None,
        rows: history.map_values(|c: SpecCommit| history_row(c)),
    }
}

/// True when no section after the first, the summary, has a row. The
/// summary always has its HEAD row, so it says nothing about whether the
/// repository has anything in it.
pub open spec fn nothing_below_summary(sections: Seq<SectionModel>) -> bool {
    forall|k: int| 1 <= k < sections.len() ==> (#[trigger] sections[k]).rows.len() == 0
}

/// The panel for a repository state: the error when the last refresh failed,
/// otherwise its sections, marked empty when nothing but the summary has a
/// row — a clean tree with no branches and no history.
pub open spec fn spec_render(s: RepositoryState) -> PanelModel {
    match s.error {
        Some(message) => PanelModel { status: StatusModel::Error(message@), sections: Seq::empty() },
        None => {
            let sections = sections_model(s);
            PanelModel {
                status: if nothing_below_summary(sections) {
                    StatusModel::Empty("No changes, branches or history to show yet"@)
                } else {
                    StatusModel::Ready
                },
                sections,
            }
        },
    }
}

/// Row counts fit in a machine word.
pub open spec fn counts_fit(s: RepositoryState) -> bool {
    s.status.staged@.len() + s.status.unstaged@.len() + s.status.untracked@.len()
        + s.status.conflicts@.len() <= usize::MAX
}

pub fn loading() -> (v: PanelViewState)
    ensures
        panel_is(v, PanelModel { status: StatusModel::Loading, sections: Seq::empty() }),
{
    PanelViewState { panel_id: owned(PANEL_ID), status: PanelStatus::Loading, sections: Vec::new() }
}

pub fn error(message: String) -> (v: PanelViewState)
    ensures
        panel_is(v, PanelModel { status: StatusModel::Error(message@), sections: Seq::empty() }),
{
    PanelViewState { panel_id: owned(PANEL_ID), status: PanelStatus::Error { message }, sections: Vec::new() }
}

pub fn no_repository() -> (v: PanelViewState)
    ensures
        panel_is(v, PanelModel {
            status: StatusModel::Empty("No Git repository in this workspace"@),
            sections: Seq::empty(),
        }),
{
    PanelViewState {
        panel_id: owned(PANEL_ID),
        status: PanelStatus::Empty { message: owned("No Git repository in this workspace") },
        sections: Vec::new(),
    }
}

fn icon_for(kind: ChangeKind) -> (s: &'static str)
    ensures
        s@ == icon_name(kind),
{
    match kind {
        ChangeKind::Added => "added",
        ChangeKind::Modified => "modified",
        ChangeKind::Deleted => "deleted",
        ChangeKind::Renamed => "renamed",
        ChangeKind::Copied => "copied",
        ChangeKind::TypeChanged => "modified",
        ChangeKind::Untracked => "untracked",
        ChangeKind::Conflicted => "conflict",
    }
}

fn action_for(id: &str) -> (a: PanelItemAction)
    ensures
        action_is(a, action_model(id@)),
{
    let (title, destructive) = if same(id, ACTION_OPEN_DIFF) {
        ("Open diff", false)
    } else if same(id, ACTION_OPEN_FILE) {
        ("Open file", false)
    } else if same(id, ACTION_STAGE) {
        ("Stage", false)
    } else if same(id, ACTION_UNSTAGE) {
        ("Unstage", false)
    } else if same(id, ACTION_DISCARD) {
        ("Discard changes", true)
    } else if same(id, ACTION_DELETE_FILE) {
        ("Delete file", true)
    } else if same(id, ACTION_SWITCH_BRANCH) {
        ("Switch to branch", false)
    } else if same(id, ACTION_DELETE_BRANCH) {
        ("Delete branch", true)
    } else if same(id, ACTION_RENAME_BRANCH) {
        ("Rename branch", false)
    } else if same(id, ACTION_CHECKOUT_REMOTE) {
        ("Check out locally", false)
    } else if same(id, ACTION_OPEN_COMMIT) {
        ("Open commit diff", false)
    } else {
        (id, false)
    };
    PanelItemAction { id: owned(id), title: owned(title), icon: None, destructive }
}

fn actions_for(ids: &[&str]) -> (v: Vec<PanelItemAction>)
    ensures
        v@.len() == ids@.len(),
        forall|k: int| 0 <= k < ids@.len() ==> action_is(#[trigger] v@[k], action_model(ids@[k]@)),
{
    let mut v: Vec<PanelItemAction> = Vec::new();
    let mut i: usize = 0;
    while i < ids.len()
        invariant
            0 <= i <= ids@.len(),
            v@.len() == i,
            forall|k: int| 0 <= k < i ==> action_is(#[trigger] v@[k], action_model(ids@[k]@)),
        decreases ids@.len() - i,
    {
        v.push(action_for(ids[i]));
        i += 1;
    }
    v
}

fn change_item(change: &FileChange, actions: &[&str]) -> (it: PanelItem)
    ensures
        row_is(it, change_row(change@, actions@.map_values(|a: &str| a@))),
{
    let description = match &change.original_path {
        Some(original) => {
            let mut d = owned("renamed from ");
            push_str(&mut d, original.as_str());
            Some(d)
        },
        None => None,
    };
    let acts = actions_for(actions);
    let it = PanelItem {
        id: change.path.clone(),
        label: change.path.clone(),
        description,
        icon: Some(owned(icon_for(change.kind))),
        badge: Some(change.kind.code()),
        actions: acts,
        children: Vec::new(),
        expanded: false,
    };
    proof {
        let m = change_row(change@, actions@.map_values(|a: &str| a@));
        assert forall|k: int| 0 <= k < m.actions.len() implies action_is(#[trigger] it.actions@[k], m.actions[k]) by {
            assert(m.actions[k] == action_model(actions@[k]@));
        }
    }
    it
}

fn change_section(id: &str, title: &str, changes: &Vec<FileChange>, actions: &[&str]) -> (s: PanelSection)
    ensures
        section_is(s, change_section_model(id@, title@, changes_view(changes@), actions@.map_values(|a: &str| a@))),
{
    let ghost m = change_section_model(id@, title@, changes_view(changes@), actions@.map_values(|a: &str| a@));
    let mut items: Vec<PanelItem> = Vec::new();
    let mut i: usize = 0;
    while i < changes.len()
        invariant
            0 <= i <= changes@.len(),
            m == change_section_model(id@, title@, changes_view(changes@), actions@.map_values(|a: &str| a@)),
            items@.len() == i,
            forall|k: int| 0 <= k < i ==> row_is(#[trigger] items@[k], m.rows[k]),
        decreases changes@.len() - i,
    {
        items.push(change_item(&changes[i], actions));
        i += 1;
    }
    PanelSection {
        id: owned(id),
        title: owned(title),
        badge: Some(crate::text::decimal_string(changes.len() as u64)),
        items,
    }
}

fn local_branch_item(branch: &Branch) -> (it: PanelItem)
    ensures
        row_is(it, local_branch_row(branch@)),
{
    let description = if branch.subject.as_str().is_empty() { None } else { Some(branch.subject.clone()) };
    let actions = if branch.is_head {
        actions_for(&[ACTION_RENAME_BRANCH])
    } else {
        actions_for(&[ACTION_SWITCH_BRANCH, ACTION_RENAME_BRANCH, ACTION_DELETE_BRANCH])
    };
    let it = PanelItem {
        id: branch.name.clone(),
        label: branch.name.clone(),
        description,
        icon: Some(owned(if branch.is_head { "branch-current" } else { "branch" })),
        badge: branch.upstream.clone(),
        actions,
        children: Vec::new(),
        expanded: false,
    };
    proof {
        let m = local_branch_row(branch@);
        assert forall|k: int| 0 <= k < m.actions.len() implies action_is(#[trigger] it.actions@[k], m.actions[k]) by {
        }
    }
    it
}

fn remote_branch_item(branch: &Branch) -> (it: PanelItem)
    ensures
        row_is(it, remote_branch_row(branch@)),
{
    let description = if branch.subject.as_str().is_empty() { None } else { Some(branch.subject.clone()) };
    let it = PanelItem {
        id: branch.name.clone(),
        label: branch.name.clone(),
        description,
        icon: Some(owned("branch-remote")),
        badge: None,
        actions: actions_for(&[ACTION_CHECKOUT_REMOTE]),
        children: Vec::new(),
        expanded: false,
    };
    it
}

fn history_item(commit: &Commit) -> (it: PanelItem)
    ensures
        row_is(it, history_row(commit@)),
{
    let mut description = commit.short_hash.clone();
    push_str(&mut description, " \u{b7} ");
    push_str(&mut description, commit.author.as_str());
    push_str(&mut description, " \u{b7} ");
    push_str(&mut description, commit.age.as_str());
    PanelItem {
        id: commit.hash.clone(),
        label: commit.subject.clone(),
        description: Some(description),
        icon: Some(owned("commit")),
        badge: None,
        actions: actions_for(&[ACTION_OPEN_COMMIT]),
        children: Vec::new(),
        expanded: false,
    }
}

/// The header row: where HEAD is, and whether an operation is paused.
///
/// A paused rebase or merge is the most important thing on the panel, because
/// nothing else the user does will behave normally until it is resolved.
fn summary_section(state: &RepositoryState) -> (s: PanelSection)
    requires
        counts_fit(*state),
    ensures
        section_is(s, summary_model(*state)),
{
    let description = match state.current_branch() {
        Some(branch) => {
            let mut d = branch.short_commit.clone();
            push_str(&mut d, " ");
            push_str(&mut d, branch.subject.as_str());
            Some(d)
        },
        None => None,
    };
    let mut items: Vec<PanelItem> = Vec::new();
    items.push(PanelItem {
        id: owned("head"),
        label: state.head_summary(),
        description,
        icon: Some(owned("branch-current")),
        badge: None,
        actions: Vec::new(),
        children: Vec::new(),
        expanded: false,
    });
    if state.operation.is_active() {
        let mut label = owned(state.operation.label());
        push_str(&mut label, " in progress");
        items.push(PanelItem {
            id: owned("operation"),
            label,
            description: Some(owned("Resolve the conflicts, then continue or abort.")),
            icon: Some(owned("conflict")),
            badge: None,
            actions: Vec::new(),
            children: Vec::new(),
            expanded: false,
        });
    }
    let badge = if state.status.is_clean() {
        None
    } else {
        Some(crate::text::decimal_string(state.status.total_changes() as u64))
    };
    let s = PanelSection { id: owned(SECTION_SUMMARY), title: owned("Repository"), badge, items };
    proof {
        let m = summary_model(*state);
        assert forall|k: int| 0 <= k < m.rows.len() implies row_is(#[trigger] s.items@[k], m.rows[k]) by {
            assert(s.items@[k].actions@.len() == 0);
        }
    }
    s
}

fn branch_section(state: &RepositoryState) -> (s: PanelSection)
    ensures
        section_is(s, branch_section_model(*state)),
{
    let branches = state.local_branches();
    let ghost locals = local_branches_of(*state);
    let mut items: Vec<PanelItem> = Vec::new();
    let mut i: usize = 0;
    while i < branches.len()
        invariant
            0 <= i <= branches@.len(),
            branches@.map_values(|b: &Branch| b@) == locals,
            items@.len() == i,
            forall|k: int| 0 <= k < i ==> row_is(#[trigger] items@[k], local_branch_row(locals[k])),
        decreases branches@.len() - i,
    {
        items.push(local_branch_item(branches[i]));
        i += 1;
    }
    let s = PanelSection {
        id: owned(SECTION_BRANCHES),
        title: owned("Branches"),
        badge: Some(crate::text::decimal_string(branches.len() as u64)),
        items,
    };
    s
}

fn remote_branch_section(state: &RepositoryState) -> (s: PanelSection)
    ensures
        section_is(s, remote_section_model(*state)),
{
    let branches = state.remote_branches();
    let ghost remotes = remote_branches_of(*state);
    let mut items: Vec<PanelItem> = Vec::new();
    let mut i: usize = 0;
    while i < branches.len()
        invariant
            0 <= i <= branches@.len(),
            branches@.map_values(|b: &Branch| b@) == remotes,
            items@.len() == i,
            forall|k: int| 0 <= k < i ==> row_is(#[trigger] items@[k], remote_branch_row(remotes[k])),
        decreases branches@.len() - i,
    {
        items.push(remote_branch_item(branches[i]));
        i += 1;
    }
    PanelSection {
        id: owned(SECTION_REMOTE_BRANCHES),
        title: owned("Remote branches"),
        badge: Some(crate::text::decimal_string(branches.len() as u64)),
        items,
    }
}

fn history_section(history: &Vec<Commit>) -> (s: PanelSection)
    ensures
        forall|st: RepositoryState| st.history@ == history@ ==> section_is(s, #[trigger] history_section_model(st)),
{
    let ghost commits = commits_view(history@);
    let mut items: Vec<PanelItem> = Vec::new();
    let mut i: usize = 0;
    while i < history.len()
        invariant
            0 <= i <= history@.len(),
            commits == commits_view(history@),
            items@.len() == i,
            forall|k: int| 0 <= k < i ==> row_is(#[trigger] items@[k], history_row(commits[k])),
        decreases history@.len() - i,
    {
        items.push(history_item(&history[i]));
        i += 1;
    }
    PanelSection { id: owned(SECTION_HISTORY), title: owned("History"), badge: None, items }
}

/// `v` holds exactly the sections `m`, in order.
pub open spec fn sections_are(v: Seq<PanelSection>, m: Seq<SectionModel>) -> bool {
    &&& v.len() == m.len()
    &&& forall|k: int| 0 <= k < m.len() ==> section_is(#[trigger] v[k], m[k])
}

fn append_when(
    sections: &mut Vec<PanelSection>,
    cond: bool,
    section: Option<PanelSection>,
    Ghost(prev): Ghost<Seq<SectionModel>>,
    Ghost(m): Ghost<SectionModel>,
)
    requires
        sections_are(old(sections)@, prev),
        cond ==> (section matches Some(s) && section_is(s, m)),
    ensures
        sections_are(final(sections)@, prev + when(cond, m)),
{
    if cond {
        match section {
            Some(s) => sections.push(s),
            None => {},
        }
    }
    assert(forall|k: int| 0 <= k < prev.len() ==> (prev + when(cond, m))[k] == prev[k]);
}

fn changes_sections(state: &RepositoryState) -> (v: Vec<PanelSection>)
    requires
        counts_fit(*state),
    ensures
        sections_are(v@, seq![summary_model(*state)]
            + when(state.status@.conflicts.len() > 0, change_section_model("git.conflicts"@, "Conflicts"@,
                state.status@.conflicts, seq!["open_file"@, "open_diff"@, "stage"@]))
            + when(state.status@.staged.len() > 0, change_section_model("git.staged"@, "Staged"@,
                state.status@.staged, seq!["open_diff"@, "unstage"@, "open_file"@]))
            + when(state.status@.unstaged.len() > 0, change_section_model("git.unstaged"@, "Changes"@,
                state.status@.unstaged, seq!["open_diff"@, "stage"@, "discard"@, "open_file"@]))
            + when(state.status@.untracked.len() > 0, change_section_model("git.untracked"@, "Untracked"@,
                state.status@.untracked, seq!["open_file"@, "stage"@, "delete_file"@]))),
{
    let ghost st = state.status@;
    let mut sections: Vec<PanelSection> = Vec::new();
    sections.push(summary_section(state));
    let ghost m0: Seq<SectionModel> = seq![summary_model(*state)];
    assert(sections_are(sections@, m0));

    let conflicts = state.status.conflicts.len() > 0;
    let section = if conflicts {
        Some(change_section(SECTION_CONFLICTS, "Conflicts", &state.status.conflicts,
            &[ACTION_OPEN_FILE, ACTION_OPEN_DIFF, ACTION_STAGE]))
    } else {
        None
    };
    let ghost c1 = change_section_model("git.conflicts"@, "Conflicts"@, st.conflicts,
        seq!["open_file"@, "open_diff"@, "stage"@]);
    append_when(&mut sections, conflicts, section, Ghost(m0), Ghost(c1));
    let ghost m1 = m0 + when(conflicts, c1);

    let staged = state.status.staged.len() > 0;
    let section = if staged {
        Some(change_section(SECTION_STAGED, "Staged", &state.status.staged,
            &[ACTION_OPEN_DIFF, ACTION_UNSTAGE, ACTION_OPEN_FILE]))
    } else {
        None
    };
    let ghost c2 = change_section_model("git.staged"@, "Staged"@, st.staged,
        seq!["open_diff"@, "unstage"@, "open_file"@]);
    append_when(&mut sections, staged, section, Ghost(m1), Ghost(c2));
    let ghost m2 = m1 + when(staged, c2);

    let unstaged = state.status.unstaged.len() > 0;
    let section = if unstaged {
        Some(change_section(SECTION_UNSTAGED, "Changes", &state.status.unstaged,
            &[ACTION_OPEN_DIFF, ACTION_STAGE, ACTION_DISCARD, ACTION_OPEN_FILE]))
    } else {
        None
    };
    let ghost c3 = change_section_model("git.unstaged"@, "Changes"@, st.unstaged,
        seq!["open_diff"@, "stage"@, "discard"@, "open_file"@]);
    append_when(&mut sections, unstaged, section, Ghost(m2), Ghost(c3));
    let ghost m3 = m2 + when(unstaged, c3);

    let untracked = state.status.untracked.len() > 0;
    let section = if untracked {
        Some(change_section(SECTION_UNTRACKED, "Untracked", &state.status.untracked,
            &[ACTION_OPEN_FILE, ACTION_STAGE, ACTION_DELETE_FILE]))
    } else {
        None
    };
    let ghost c4 = change_section_model("git.untracked"@, "Untracked"@, st.untracked,
        seq!["open_file"@, "stage"@, "delete_file"@]);
    append_when(&mut sections, untracked, section, Ghost(m3), Ghost(c4));
    sections
}

fn all_sections(state: &RepositoryState) -> (v: Vec<PanelSection>)
    requires
        counts_fit(*state),
    ensures
        sections_are(v@, sections_model(*state)),
{
    let mut sections = changes_sections(state);
    let ghost m4 = seq![summary_model(*state)]
        + when(state.status@.conflicts.len() > 0, change_section_model("git.conflicts"@, "Conflicts"@,
            state.status@.conflicts, seq!["open_file"@, "open_diff"@, "stage"@]))
        + when(state.status@.staged.len() > 0, change_section_model("git.staged"@, "Staged"@,
            state.status@.staged, seq!["open_diff"@, "unstage"@, "open_file"@]))
        + when(state.status@.unstaged.len() > 0, change_section_model("git.unstaged"@, "Changes"@,
            state.status@.unstaged, seq!["open_diff"@, "stage"@, "discard"@, "open_file"@]))
        + when(state.status@.untracked.len() > 0, change_section_model("git.untracked"@, "Untracked"@,
            state.status@.untracked, seq!["open_file"@, "stage"@, "delete_file"@]));
    append_when(&mut sections, true, Some(branch_section(state)), Ghost(m4), Ghost(branch_section_model(*state)));
    let ghost m5 = m4 + when(true, branch_section_model(*state));
    let has_remotes = state.remote_branches().len() > 0;
    let section = if has_remotes { Some(remote_branch_section(state)) } else { None };
    append_when(&mut sections, has_remotes, section, Ghost(m5), Ghost(remote_section_model(*state)));
    let ghost m6 = m5 + when(has_remotes, remote_section_model(*state));
    let has_history = state.history.len() > 0;
    let section = if has_history { Some(history_section(&state.history)) } else { None };
    proof {
        if has_history {
            assert(section_is(section.unwrap(), history_section_model(*state)));
        }
    }
    append_when(&mut sections, has_history, section, Ghost(m6), Ghost(history_section_model(*state)));
    assert(m6 + when(has_history, history_section_model(*state)) =~= sections_model(*state));
    sections
}

/// The panel for a repository: the failure when the last refresh failed,
/// otherwise the summary, each non-empty change section, the local branches,
/// and the remote branches and history when there are any.
///
/// A clean tree is not an empty panel — branches and history are still worth
/// showing. Empty is reserved for a repository with nothing in it yet.
pub fn render(state: &RepositoryState) -> (v: PanelViewState)
    requires
        counts_fit(*state),
    ensures
        panel_is(v, spec_render(*state)),
{
    if let Some(message) = &state.error {
        return error(message.clone());
    }
    let sections = all_sections(state);
    let ghost m = sections_model(*state);
    let mut all_empty = true;
    let mut i: usize = 1;
    while i < sections.len()
        invariant
            1 <= i,
            i <= sections@.len() || sections@.len() == 0,
            sections_are(sections@, m),
            all_empty == forall|k: int| 1 <= k < i && k < m.len() ==> (#[trigger] m[k]).rows.len() == 0,
        decreases sections@.len() - i,
    {
        assert(section_is(sections@[i as int], m[i as int]));
        if sections[i].items.len() > 0 {
            all_empty = false;
        }
        i += 1;
    }
    let status = if all_empty {
        PanelStatus::Empty { message: owned("No changes, branches or history to show yet") }
    } else {
        PanelStatus::Ready
    };
    PanelViewState { panel_id: owned(PANEL_ID), status, sections }
}

/// Conflicts are shown before anything else that can be acted on: when a
/// readable repository has conflicts, they are the section right after the
/// summary, ahead of the staged, unstaged and untracked sections.
pub proof fn lemma_conflicts_come_first(s: RepositoryState)
    requires
        s.error is None,
        s.status@.conflicts.len() > 0,
    ensures
        spec_render(s).sections[0].id == "git.summary"@,
        spec_render(s).sections[1].id == "git.conflicts"@,
        spec_render(s).sections[1].rows.len() == s.status@.conflicts.len(),
{
    let st = s.status@;
    let c = change_section_model("git.conflicts"@, "Conflicts"@, st.conflicts, seq!["open_file"@, "open_diff"@, "stage"@]);
    let m = sections_model(s);
    assert(m[1] == c);
}

/// The checked-out branch is never offered a switch or a delete, and every
/// other local branch is offered both.
pub proof fn lemma_head_branch_actions(b: SpecBranch)
    ensures
        b.is_head ==> local_branch_row(b).actions.len() == 1
            && local_branch_row(b).actions[0].id == "rename_branch"@,
        !b.is_head ==> local_branch_row(b).actions.len() == 3
            && local_branch_row(b).actions[0].id == "switch_branch"@
            && local_branch_row(b).actions[2].id == "delete_branch"@,
{
}

/// A change row is addressed by its repository-relative path, undecorated,
/// so an action's item id carries straight back into a Git argument.
pub proof fn lemma_rows_are_addressed_by_path(c: SpecFileChange, actions: Seq<Seq<char>>)
    ensures
        change_row(c, actions).id == c.path,
        change_row(c, actions).actions.len() == actions.len(),
{
}

/// Actions that cannot be undone — discarding changes, deleting a file,
/// deleting a branch — are marked destructive, so Warp renders the warning.
pub proof fn lemma_irreversible_actions_are_destructive()
    ensures
        action_model("discard"@).destructive,
        action_model("delete_file"@).destructive,
        action_model("delete_branch"@).destructive,
        !action_model("stage"@).destructive,
        !action_model("open_diff"@).destructive,
{
    reveal_strlit("discard");
    reveal_strlit("delete_file");
    reveal_strlit("delete_branch");
    reveal_strlit("stage");
    reveal_strlit("open_diff");
    reveal_strlit("open_file");
    reveal_strlit("unstage");
    reveal_strlit("switch_branch");
    assert("discard"@[0] != "open_diff"@[0]);
    assert("discard"@[0] != "open_file"@[0]);
    assert("discard"@[0] != "stage"@[0]);
    assert("discard"@[0] != "unstage"@[0]);
    assert("delete_file"@.len() != "open_diff"@.len());
    assert("delete_file"@.len() != "open_file"@.len());
    assert("delete_file"@.len() != "stage"@.len());
    assert("delete_file"@.len() != "unstage"@.len());
    assert("delete_file"@[1] != "discard"@[1]);
    assert("delete_branch"@.len() != "open_diff"@.len());
    assert("delete_branch"@[0] != "stage"@[0]);
    assert("delete_branch"@.len() != "unstage"@.len());
    assert("delete_branch"@[1] != "discard"@[1]);
    assert("delete_branch"@.len() != "delete_file"@.len());
    assert("delete_branch"@[0] != "switch_branch"@[0]);
    assert("delete_branch"@.len() != "open_file"@.len());
}

/// A failed refresh replaces the content: the panel shows the error and no
/// stale sections.
pub proof fn lemma_failure_replaces_content(s: RepositoryState)
    requires
        s.error is Some,
    ensures
        spec_render(s).status == StatusModel::Error(s.error->0@),
        spec_render(s).sections.len() == 0,
{
}

} // verus!
