//! Capability tokens Warp advertises so plugins can degrade instead of break.
use vstd::prelude::*;

verus! {

/// One negotiable slice of the extension API.
///
/// A plugin built against a newer Warp must not assume an older build
/// implements everything; a token absent from the handshake means the
/// corresponding methods answer `unsupported_capability`.
#[derive(Debug, Copy, Clone, PartialEq, Eq, PartialOrd, Ord, Hash, Structural)]
pub enum Capability {
    CommandsV1,
    PanelTreeV1,
    WorkspaceContextV1,
    ExecutionV1,
    DiffOpenV1,
    FileOpenV1,
    DialogConfirmV1,
    NotificationV1,
}

/// The wire token of each capability.
pub open spec fn capability_name(c: Capability) -> Seq<char> {
    match c {
        Capability::CommandsV1 => "commands.v1"@,
        Capability::PanelTreeV1 => "panel.tree.v1"@,
        Capability::WorkspaceContextV1 => "workspace.context.v1"@,
        Capability::ExecutionV1 => "execution.v1"@,
        Capability::DiffOpenV1 => "diff.open.v1"@,
        Capability::FileOpenV1 => "file.open.v1"@,
        Capability::DialogConfirmV1 => "dialog.confirm.v1"@,
        Capability::NotificationV1 => "notification.v1"@,
    }
}

/// The capability a wire token names, if any.
pub open spec fn capability_named(token: Seq<char>) -> Option<Capability> {
    if token == "commands.v1"@ {
        Some(Capability::CommandsV1)
    } else if token == "panel.tree.v1"@ {
        Some(Capability::PanelTreeV1)
    } else if token == "workspace.context.v1"@ {
        Some(Capability::WorkspaceContextV1)
    } else if token == "execution.v1"@ {
        Some(Capability::ExecutionV1)
    } else if token == "diff.open.v1"@ {
        Some(Capability::DiffOpenV1)
    } else if token == "file.open.v1"@ {
        Some(Capability::FileOpenV1)
    } else if token == "dialog.confirm.v1"@ {
        Some(Capability::DialogConfirmV1)
    } else if token == "notification.v1"@ {
        Some(Capability::NotificationV1)
    } else {
        None
    }
}

/// A capability's wire token reads back as that capability, so no two
/// capabilities share a token.
pub proof fn lemma_capability_names_round_trip(c: Capability)
    ensures
        capability_named(capability_name(c)) == Some(c),
{
    reveal_strlit("commands.v1");
    reveal_strlit("panel.tree.v1");
    reveal_strlit("workspace.context.v1");
    reveal_strlit("execution.v1");
    reveal_strlit("diff.open.v1");
    reveal_strlit("file.open.v1");
    reveal_strlit("dialog.confirm.v1");
    reveal_strlit("notification.v1");
    // Tokens of one length differ in their first character.
    let token = capability_name(c);
    assert(token.len() == 12 ==> token[0] != "execution.v1"@[0] || token[0] != "diff.open.v1"@[0]
        || token[0] != "file.open.v1"@[0]);
}

impl Capability {
    /// Every capability, in declaration order.
    pub const ALL: [Capability; 8] = [
        Capability::CommandsV1,
        Capability::PanelTreeV1,
        Capability::WorkspaceContextV1,
        Capability::ExecutionV1,
        Capability::DiffOpenV1,
        Capability::FileOpenV1,
        Capability::DialogConfirmV1,
        Capability::NotificationV1,
    ];

    pub fn as_str(self) -> (s: &'static str)
        ensures
            s@ == capability_name(self),
    {
        match self {
            Capability::CommandsV1 => "commands.v1",
            Capability::PanelTreeV1 => "panel.tree.v1",
            Capability::WorkspaceContextV1 => "workspace.context.v1",
            Capability::ExecutionV1 => "execution.v1",
            Capability::DiffOpenV1 => "diff.open.v1",
            Capability::FileOpenV1 => "file.open.v1",
            Capability::DialogConfirmV1 => "dialog.confirm.v1",
            Capability::NotificationV1 => "notification.v1",
        }
    }
}

} // verus!
