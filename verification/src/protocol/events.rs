//! One-way notifications Warp sends to a running plugin.
use vstd::prelude::*;

use crate::protocol::methods::ExecutionTarget;

verus! {

/// Every event a plugin can receive.
#[derive(Debug, Copy, Clone, PartialEq, Eq, Hash, Structural)]
pub enum EventKind {
    WorkspaceChanged,
    CwdChanged,
    RepositoryChanged,
    SessionChanged,
    SshConnected,
    SshDisconnected,
    CommandInvoked,
    PanelAction,
    /// Sent once before Warp stops the plugin, so it can exit cleanly rather
    /// than being killed at the stop timeout.
    ExtensionShutdown,
}

/// The wire name of each event.
pub open spec fn event_name(e: EventKind) -> Seq<char> {
    match e {
        EventKind::WorkspaceChanged => "workspace.changed"@,
        EventKind::CwdChanged => "cwd.changed"@,
        EventKind::RepositoryChanged => "repository.changed"@,
        EventKind::SessionChanged => "session.changed"@,
        EventKind::SshConnected => "ssh.connected"@,
        EventKind::SshDisconnected => "ssh.disconnected"@,
        EventKind::CommandInvoked => "command.invoked"@,
        EventKind::PanelAction => "panel.action"@,
        EventKind::ExtensionShutdown => "extension.shutdown"@,
    }
}

/// The event a wire name names, if any.
pub open spec fn event_named(name: Seq<char>) -> Option<EventKind> {
    if name == "workspace.changed"@ {
        Some(EventKind::WorkspaceChanged)
    } else if name == "cwd.changed"@ {
        Some(EventKind::CwdChanged)
    } else if name == "repository.changed"@ {
        Some(EventKind::RepositoryChanged)
    } else if name == "session.changed"@ {
        Some(EventKind::SessionChanged)
    } else if name == "ssh.connected"@ {
        Some(EventKind::SshConnected)
    } else if name == "ssh.disconnected"@ {
        Some(EventKind::SshDisconnected)
    } else if name == "command.invoked"@ {
        Some(EventKind::CommandInvoked)
    } else if name == "panel.action"@ {
        Some(EventKind::PanelAction)
    } else if name == "extension.shutdown"@ {
        Some(EventKind::ExtensionShutdown)
    } else {
        None
    }
}

/// An event's wire name reads back as that event, so no two events share a
/// name.
pub proof fn lemma_event_names_round_trip(kind: EventKind)
    ensures
        event_named(event_name(kind)) == Some(kind),
{
    reveal_strlit("workspace.changed");
    reveal_strlit("cwd.changed");
    reveal_strlit("repository.changed");
    reveal_strlit("session.changed");
    reveal_strlit("ssh.connected");
    reveal_strlit("ssh.disconnected");
    reveal_strlit("command.invoked");
    reveal_strlit("panel.action");
    reveal_strlit("extension.shutdown");
    // Names of one length differ at one position.
    let name = event_name(kind);
    assert(name.len() == 18 ==> name[0] != "repository.changed"@[0] || name[0] != "extension.shutdown"@[0]);
    assert(name.len() == 15 ==> name[0] != "session.changed"@[0] || name[0] != "command.invoked"@[0]);
}

impl EventKind {
    /// Every event, in declaration order.
    pub const ALL: [EventKind; 9] = [
        EventKind::WorkspaceChanged,
        EventKind::CwdChanged,
        EventKind::RepositoryChanged,
        EventKind::SessionChanged,
        EventKind::SshConnected,
        EventKind::SshDisconnected,
        EventKind::CommandInvoked,
        EventKind::PanelAction,
        EventKind::ExtensionShutdown,
    ];

    pub fn as_str(self) -> (s: &'static str)
        ensures
            s@ == event_name(self),
    {
        match self {
            EventKind::WorkspaceChanged => "workspace.changed",
            EventKind::CwdChanged => "cwd.changed",
            EventKind::RepositoryChanged => "repository.changed",
            EventKind::SessionChanged => "session.changed",
            EventKind::SshConnected => "ssh.connected",
            EventKind::SshDisconnected => "ssh.disconnected",
            EventKind::CommandInvoked => "command.invoked",
            EventKind::PanelAction => "panel.action",
            EventKind::ExtensionShutdown => "extension.shutdown",
        }
    }
}

/// Identity every actionable event carries.
///
/// An action stays attached to the workspace, session and repository it started
/// in, so a plugin that is slow to respond cannot have its work retargeted by a
/// focus change it never saw.
#[derive(Debug, Clone, PartialEq, Eq)]
pub struct ActionOrigin {
    pub workspace_id: String,
    pub session_id: Option<String>,
    pub repository_root: Option<String>,
    pub execution_target: ExecutionTarget,
}

#[derive(Debug, Clone, PartialEq, Eq)]
pub struct ContextChangedParams {
    pub workspace_id: String,
    pub cwd: Option<String>,
    pub repository_root: Option<String>,
}

#[derive(Debug, Clone, PartialEq, Eq)]
pub struct SessionChangedParams {
    pub workspace_id: String,
    pub session_id: Option<String>,
    pub execution_target: ExecutionTarget,
}

#[derive(Debug, Clone, PartialEq, Eq)]
pub struct CommandInvokedParams {
    /// A command id the manifest declared.
    pub command_id: String,
    pub origin: ActionOrigin,
}

#[derive(Debug, Clone, PartialEq, Eq)]
pub struct PanelActionParams {
    pub panel_id: String,
    pub item_id: String,
    pub action_id: String,
    pub origin: ActionOrigin,
}

} // verus!
