//! Host methods a plugin may call, and their typed parameters and results.
use std::collections::BTreeMap;

use vstd::prelude::*;

use crate::protocol::capabilities::Capability;
use crate::protocol::permissions::Permission;

verus! {

/// Every call a plugin can make into Warp.
///
/// The wire names are dotted and camel-cased (`workspace.getContext`) and are
/// public API. Adding a method requires extending [`Method::permission`] and
/// [`Method::capability`], which keeps the permission gate total by
/// construction.
#[derive(Debug, Copy, Clone, PartialEq, Eq, Hash, Structural)]
pub enum Method {
    ExtensionInitialize,
    WorkspaceGetContext,
    ExecutionRun,
    FileOpen,
    DiffOpenWorkingTree,
    DiffOpenFile,
    NotificationShow,
    DialogConfirm,
    DialogInput,
    DialogSelect,
    PanelSetState,
}

/// The wire name of each method.
pub open spec fn method_name(m: Method) -> Seq<char> {
    match m {
        Method::ExtensionInitialize => "extension.initialize"@,
        Method::WorkspaceGetContext => "workspace.getContext"@,
        Method::ExecutionRun => "execution.run"@,
        Method::FileOpen => "file.open"@,
        Method::DiffOpenWorkingTree => "diff.openWorkingTree"@,
        Method::DiffOpenFile => "diff.openFile"@,
        Method::NotificationShow => "notification.show"@,
        Method::DialogConfirm => "dialog.confirm"@,
        Method::DialogInput => "dialog.input"@,
        Method::DialogSelect => "dialog.select"@,
        Method::PanelSetState => "panel.setState"@,
    }
}

/// The method a wire name names, if any.
pub open spec fn method_named(name: Seq<char>) -> Option<Method> {
    if name == "extension.initialize"@ {
        Some(Method::ExtensionInitialize)
    } else if name == "workspace.getContext"@ {
        Some(Method::WorkspaceGetContext)
    } else if name == "execution.run"@ {
        Some(Method::ExecutionRun)
    } else if name == "file.open"@ {
        Some(Method::FileOpen)
    } else if name == "diff.openWorkingTree"@ {
        Some(Method::DiffOpenWorkingTree)
    } else if name == "diff.openFile"@ {
        Some(Method::DiffOpenFile)
    } else if name == "notification.show"@ {
        Some(Method::NotificationShow)
    } else if name == "dialog.confirm"@ {
        Some(Method::DialogConfirm)
    } else if name == "dialog.input"@ {
        Some(Method::DialogInput)
    } else if name == "dialog.select"@ {
        Some(Method::DialogSelect)
    } else if name == "panel.setState"@ {
        Some(Method::PanelSetState)
    } else {
        None
    }
}

/// A method's wire name reads back as that method, so no two methods share a
/// name.
pub proof fn lemma_method_names_round_trip(method: Method)
    ensures
        method_named(method_name(method)) == Some(method),
{
    reveal_strlit("extension.initialize");
    reveal_strlit("workspace.getContext");
    reveal_strlit("execution.run");
    reveal_strlit("file.open");
    reveal_strlit("diff.openWorkingTree");
    reveal_strlit("diff.openFile");
    reveal_strlit("notification.show");
    reveal_strlit("dialog.confirm");
    reveal_strlit("dialog.input");
    reveal_strlit("dialog.select");
    reveal_strlit("panel.setState");
    // Names of one length differ at one position.
    let name = method_name(method);
    assert(name.len() == 20 ==> name[0] != "extension.initialize"@[0] || name[0] != "workspace.getContext"@[0] || name[0] != "diff.openWorkingTree"@[0]);
    assert(name.len() == 13 ==> name[2] != "execution.run"@[2] || name[2] != "diff.openFile"@[2] || name[2] != "dialog.select"@[2]);
    assert(name.len() == 14 ==> name[0] != "dialog.confirm"@[0] || name[0] != "panel.setState"@[0]);
}

/// The permission each method is gated on; the handshake needs none.
pub open spec fn required_permission(m: Method) -> Option<Permission> {
    match m {
        Method::ExtensionInitialize => None,
        Method::WorkspaceGetContext => Some(Permission::WorkspaceRead),
        Method::ExecutionRun => Some(Permission::ProcessExecute),
        Method::FileOpen => Some(Permission::WorkspaceRead),
        Method::DiffOpenWorkingTree | Method::DiffOpenFile => Some(Permission::WorkspaceRead),
        Method::NotificationShow => Some(Permission::UiNotifications),
        Method::DialogConfirm | Method::DialogInput | Method::DialogSelect => Some(Permission::UiDialogs),
        Method::PanelSetState => Some(Permission::UiPanel),
    }
}

/// The capability each method is gated on; the handshake needs none.
pub open spec fn required_capability(m: Method) -> Option<Capability> {
    match m {
        Method::ExtensionInitialize => None,
        Method::WorkspaceGetContext => Some(Capability::WorkspaceContextV1),
        Method::ExecutionRun => Some(Capability::ExecutionV1),
        Method::FileOpen => Some(Capability::FileOpenV1),
        Method::DiffOpenWorkingTree | Method::DiffOpenFile => Some(Capability::DiffOpenV1),
        Method::NotificationShow => Some(Capability::NotificationV1),
        Method::DialogConfirm | Method::DialogInput | Method::DialogSelect => Some(Capability::DialogConfirmV1),
        Method::PanelSetState => Some(Capability::PanelTreeV1),
    }
}

impl Method {
    /// Every method, used to show the permission and capability maps are total.
    pub const ALL: [Method; 11] = [
        Method::ExtensionInitialize,
        Method::WorkspaceGetContext,
        Method::ExecutionRun,
        Method::FileOpen,
        Method::DiffOpenWorkingTree,
        Method::DiffOpenFile,
        Method::NotificationShow,
        Method::DialogConfirm,
        Method::DialogInput,
        Method::DialogSelect,
        Method::PanelSetState,
    ];

    pub fn as_str(self) -> (s: &'static str)
        ensures
            s@ == method_name(self),
    {
        match self {
            Method::ExtensionInitialize => "extension.initialize",
            Method::WorkspaceGetContext => "workspace.getContext",
            Method::ExecutionRun => "execution.run",
            Method::FileOpen => "file.open",
            Method::DiffOpenWorkingTree => "diff.openWorkingTree",
            Method::DiffOpenFile => "diff.openFile",
            Method::NotificationShow => "notification.show",
            Method::DialogConfirm => "dialog.confirm",
            Method::DialogInput => "dialog.input",
            Method::DialogSelect => "dialog.select",
            Method::PanelSetState => "panel.setState",
        }
    }

    /// The permission that must be granted before this method is dispatched.
    ///
    /// `None` means the method is part of the handshake and precedes any grant.
    pub fn permission(self) -> (p: Option<Permission>)
        ensures
            p == required_permission(self),
    {
        match self {
            Method::ExtensionInitialize => None,
            Method::WorkspaceGetContext => Some(Permission::WorkspaceRead),
            Method::ExecutionRun => Some(Permission::ProcessExecute),
            Method::FileOpen => Some(Permission::WorkspaceRead),
            Method::DiffOpenWorkingTree | Method::DiffOpenFile => Some(Permission::WorkspaceRead),
            Method::NotificationShow => Some(Permission::UiNotifications),
            Method::DialogConfirm | Method::DialogInput | Method::DialogSelect => {
                Some(Permission::UiDialogs)
            },
            Method::PanelSetState => Some(Permission::UiPanel),
        }
    }

    /// The capability Warp must advertise for this method to be callable.
    pub fn capability(self) -> (c: Option<Capability>)
        ensures
            c == required_capability(self),
    {
        match self {
            Method::ExtensionInitialize => None,
            Method::WorkspaceGetContext => Some(Capability::WorkspaceContextV1),
            Method::ExecutionRun => Some(Capability::ExecutionV1),
            Method::FileOpen => Some(Capability::FileOpenV1),
            Method::DiffOpenWorkingTree | Method::DiffOpenFile => Some(Capability::DiffOpenV1),
            Method::NotificationShow => Some(Capability::NotificationV1),
            Method::DialogConfirm | Method::DialogInput | Method::DialogSelect => {
                Some(Capability::DialogConfirmV1)
            },
            Method::PanelSetState => Some(Capability::PanelTreeV1),
        }
    }
}

/// Every method but the handshake is gated on both a permission and a
/// capability, and the handshake on neither.
pub proof fn lemma_gates_are_total(m: Method)
    ensures
        (m == Method::ExtensionInitialize) <==> required_permission(m) is None,
        (m == Method::ExtensionInitialize) <==> required_capability(m) is None,
{
}

/// Opening message of the handshake, sent by the plugin.
#[derive(Debug, Clone, PartialEq, Eq)]
pub struct InitializeParams {
    pub extension_id: String,
    pub api_version: u32,
}

/// Warp's handshake reply, telling the plugin what this build supports.
#[derive(Debug, Clone, PartialEq, Eq)]
pub struct InitializeResult {
    pub protocol: u32,
    pub api_version: u32,
    pub capabilities: Vec<Capability>,
}

/// Where a plugin's request is carried out.
///
/// Every method that acts on the world carries one explicitly. Warp never
/// substitutes "whatever is focused now", because doing so is how a remote
/// mutation lands on a same-named local path.
#[derive(Debug, Clone, PartialEq, Eq, Hash)]
pub enum ExecutionTarget {
    Local,
    Ssh { session_id: String },
}

/// The workspace a plugin is currently acting in.
#[derive(Debug, Clone, PartialEq, Eq)]
pub struct WorkspaceContext {
    pub workspace_id: String,
    pub cwd: String,
    pub repository_root: Option<String>,
    pub active_pane_id: Option<String>,
    pub session_id: Option<String>,
    pub execution_target: ExecutionTarget,
}

/// Arguments for running one allow-listed executable.
///
/// `args` is an argv vector rather than a shell string: there is no `sh -c`
/// path in this API, so a plugin cannot smuggle a second command through
/// argument text.
#[derive(Debug, Clone, PartialEq, Eq)]
pub struct ExecutionRunParams {
    pub target: ExecutionTarget,
    pub cwd: String,
    pub executable: String,
    pub args: Vec<String>,
    pub env: BTreeMap<String, String>,
    pub timeout_ms: Option<u64>,
}

#[derive(Debug, Clone, PartialEq, Eq)]
pub struct ExecutionRunResult {
    /// `None` when the process was terminated by a signal rather than exiting.
    pub exit_code: Option<i32>,
    pub stdout: String,
    pub stderr: String,
    pub duration_ms: u64,
    /// Set when output exceeded the host's limit and was cut short.
    pub truncated: bool,
}

/// Which of Warp's viewers a file should prefer when more than one applies.
#[derive(Debug, Copy, Clone, PartialEq, Eq, Structural)]
pub enum PreferredView {
    Editor,
    Markdown,
}

#[derive(Debug, Clone, PartialEq, Eq)]
pub struct FileOpenParams {
    pub target: ExecutionTarget,
    pub path: String,
    pub line: Option<u32>,
    pub column: Option<u32>,
    pub preferred_view: Option<PreferredView>,
}

/// Which pair of trees a diff compares.
#[derive(Debug, Copy, Clone, PartialEq, Eq, Structural)]
pub enum DiffComparison {
    HeadToWorktree,
    HeadToIndex,
    IndexToWorktree,
}

#[derive(Debug, Clone, PartialEq, Eq)]
pub struct DiffOpenWorkingTreeParams {
    pub target: ExecutionTarget,
    pub repository_root: String,
}

#[derive(Debug, Clone, PartialEq, Eq)]
pub struct DiffOpenFileParams {
    pub target: ExecutionTarget,
    pub repository_root: String,
    /// Repository-relative path, so the same value round-trips through panel
    /// item ids and Git's own output.
    pub path: String,
    pub comparison: DiffComparison,
}

#[derive(Debug, Copy, Clone, PartialEq, Eq, Structural)]
pub enum NotificationLevel {
    Info,
    Warning,
    Error,
}

#[derive(Debug, Clone, PartialEq, Eq)]
pub struct NotificationParams {
    pub title: String,
    pub body: Option<String>,
    pub level: NotificationLevel,
}

#[derive(Debug, Clone, PartialEq, Eq)]
pub struct DialogConfirmParams {
    pub title: String,
    pub body: Option<String>,
    pub confirm_label: String,
    pub cancel_label: String,
    /// Renders Warp's destructive treatment. Warp owns this presentation so a
    /// plugin cannot make an irreversible action look routine.
    pub destructive: bool,
}

#[derive(Debug, Clone, PartialEq, Eq)]
pub struct DialogConfirmResult {
    pub confirmed: bool,
}

#[derive(Debug, Clone, PartialEq, Eq)]
pub struct DialogInputParams {
    pub title: String,
    pub body: Option<String>,
    pub placeholder: Option<String>,
    pub initial_value: Option<String>,
}

/// `None` means the user dismissed the dialog without entering a value.
#[derive(Debug, Clone, PartialEq, Eq)]
pub struct DialogInputResult {
    pub value: Option<String>,
}

#[derive(Debug, Clone, PartialEq, Eq)]
pub struct DialogSelectOption {
    pub id: String,
    pub label: String,
    pub description: Option<String>,
}

#[derive(Debug, Clone, PartialEq, Eq)]
pub struct DialogSelectParams {
    pub title: String,
    pub body: Option<String>,
    pub options: Vec<DialogSelectOption>,
}

/// `None` means the user dismissed the dialog without choosing.
#[derive(Debug, Clone, PartialEq, Eq)]
pub struct DialogSelectResult {
    pub selected_id: Option<String>,
}

/// What a panel is currently showing, aside from its content.
///
/// Loading, empty and error presentations belong to Warp so extension panels
/// match built-in ones; the plugin only says which state it is in.
#[derive(Debug, Clone, PartialEq, Eq)]
pub enum PanelStatus {
    Loading,
    Ready,
    Empty { message: String },
    Error { message: String },
}

/// One row action, surfaced as a context-menu entry or inline affordance.
#[derive(Debug, Clone, PartialEq, Eq)]
pub struct PanelItemAction {
    pub id: String,
    pub title: String,
    pub icon: Option<String>,
    pub destructive: bool,
}

#[derive(Debug, PartialEq, Eq)]
pub struct PanelItem {
    /// Stable within its section, and echoed back on `panel.action`.
    pub id: String,
    pub label: String,
    pub description: Option<String>,
    pub icon: Option<String>,
    pub badge: Option<String>,
    pub actions: Vec<PanelItemAction>,
    pub children: Vec<PanelItem>,
    pub expanded: bool,
}

#[derive(Debug, PartialEq, Eq)]
pub struct PanelSection {
    pub id: String,
    pub title: String,
    pub badge: Option<String>,
    pub items: Vec<PanelItem>,
}

/// A complete snapshot of one panel. Warp renders it with native components;
/// there is no markup or executable UI in this model.
#[derive(Debug, PartialEq, Eq)]
pub struct PanelViewState {
    /// Must match a panel the manifest declared.
    pub panel_id: String,
    pub status: PanelStatus,
    pub sections: Vec<PanelSection>,
}

} // verus!
