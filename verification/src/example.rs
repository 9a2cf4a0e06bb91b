//! The reference extension: the smallest plugin that exercises every
//! capability without any domain logic, so the extension API can be proven
//! end to end before a real plugin is written.
//!
//! Its conversation with Warp happens at the edge; what it shows and how it
//! answers each event is here.
use vstd::prelude::*;

use crate::protocol::events::EventKind;
use crate::protocol::methods::{ExecutionTarget, PanelItem, PanelItemAction, PanelSection, PanelStatus, PanelViewState, WorkspaceContext};
use crate::text::{owned, push_str};

verus! {

pub const EXTENSION_ID: &'static str = "dev.warp.example";
pub const PANEL_ID: &'static str = "example";

/// How a target is described to the user.
pub open spec fn target_text(t: ExecutionTarget) -> Seq<char> {
    match t {
        ExecutionTarget::Local => "local"@,
        ExecutionTarget::Ssh { session_id } => "ssh session "@ + session_id@,
    }
}

pub fn describe(target: &ExecutionTarget) -> (s: String)
    ensures
        s@ == target_text(*target),
{
    match target {
        ExecutionTarget::Local => owned("local"),
        ExecutionTarget::Ssh { session_id } => {
            let mut s = owned("ssh session ");
            push_str(&mut s, session_id.as_str());
            s
        },
    }
}

/// The file the plugin opens to show it can: `README.md` at the repository
/// root, or in the working directory outside a repository.
pub open spec fn sample_file(c: WorkspaceContext) -> Seq<char> {
    match c.repository_root {
        Some(root) => root@ + "/README.md"@,
        None => c.cwd@ + "/README.md"@,
    }
}

pub fn sample_path(context: &WorkspaceContext) -> (s: String)
    ensures
        s@ == sample_file(*context),
{
    let mut s = match &context.repository_root {
        Some(root) => root.clone(),
        None => context.cwd.clone(),
    };
    push_str(&mut s, "/README.md");
    s
}

/// What the plugin does with each event.
#[derive(Debug, Clone, Copy, PartialEq, Eq, Structural)]
pub enum ExampleStep {
    Stop,
    /// Open the diff of the row the action came from, in the repository its
    /// origin names.
    OpenDiff,
    /// Say hello.
    Greet,
    /// Publish the panel again.
    Republish,
}

pub open spec fn example_step_of(kind: EventKind) -> ExampleStep {
    match kind {
        EventKind::ExtensionShutdown => ExampleStep::Stop,
        EventKind::PanelAction => ExampleStep::OpenDiff,
        EventKind::CommandInvoked => ExampleStep::Greet,
        _ => ExampleStep::Republish,
    }
}

pub fn example_step(kind: EventKind) -> (s: ExampleStep)
    ensures
        s == example_step_of(kind),
{
    match kind {
        EventKind::ExtensionShutdown => ExampleStep::Stop,
        EventKind::PanelAction => ExampleStep::OpenDiff,
        EventKind::CommandInvoked => ExampleStep::Greet,
        _ => ExampleStep::Republish,
    }
}

fn row(id: &str, label: String, description: &str, actions: Vec<PanelItemAction>) -> (it: PanelItem)
    ensures
        it.id@ == id@,
        it.label@ == label@,
        it.description.deep_view() == Some(description@),
        it.icon is None,
        it.badge is None,
        it.actions@ == actions@,
        it.children@.len() == 0,
        !it.expanded,
{
    PanelItem {
        id: owned(id),
        label,
        description: Some(owned(description)),
        icon: None,
        badge: None,
        actions,
        children: Vec::new(),
        expanded: false,
    }
}

/// The panel: one section describing the workspace — its working directory,
/// its execution target, and its repository with a row action that opens a
/// diff of `README.md`.
pub fn panel_state(context: &WorkspaceContext) -> (v: PanelViewState)
    ensures
        v.panel_id@ == "example"@,
        v.status == PanelStatus::Ready,
        v.sections@.len() == 1,
        v.sections@[0].id@ == "example.context"@,
        v.sections@[0].title@ == "Workspace"@,
        v.sections@[0].badge is None,
        v.sections@[0].items@.len() == 3,
        v.sections@[0].items@[0].id@ == "cwd"@,
        v.sections@[0].items@[0].label@ == context.cwd@,
        v.sections@[0].items@[0].description.deep_view() == Some("Working directory"@),
        v.sections@[0].items@[0].actions@.len() == 0,
        v.sections@[0].items@[1].id@ == "target"@,
        v.sections@[0].items@[1].label@ == target_text(context.execution_target),
        v.sections@[0].items@[1].description.deep_view() == Some("Execution target"@),
        v.sections@[0].items@[1].actions@.len() == 0,
        v.sections@[0].items@[2].id@ == "README.md"@,
        v.sections@[0].items@[2].label@ == match context.repository_root {
            Some(root) => root@,
            None => "no repository"@,
        },
        v.sections@[0].items@[2].description.deep_view() == Some("Repository"@),
        v.sections@[0].items@[2].actions@.len() == 1,
        v.sections@[0].items@[2].actions@[0].id@ == "open_diff"@,
        v.sections@[0].items@[2].actions@[0].title@ == "Open diff"@,
        v.sections@[0].items@[2].actions@[0].icon is None,
        !v.sections@[0].items@[2].actions@[0].destructive,
        forall|k: int| 0 <= k < 3 ==> {
            &&& (#[trigger] v.sections@[0].items@[k]).icon is None
            &&& v.sections@[0].items@[k].badge is None
            &&& v.sections@[0].items@[k].children@.len() == 0
            &&& !v.sections@[0].items@[k].expanded
        },
{
    let repository = match &context.repository_root {
        Some(root) => root.clone(),
        None => owned("no repository"),
    };
    let open_diff = PanelItemAction { id: owned("open_diff"), title: owned("Open diff"), icon: None, destructive: false };
    let items = vec![
        row("cwd", context.cwd.clone(), "Working directory", Vec::new()),
        row("target", describe(&context.execution_target), "Execution target", Vec::new()),
        row("README.md", repository, "Repository", vec![open_diff]),
    ];
    let section = PanelSection { id: owned("example.context"), title: owned("Workspace"), badge: None, items };
    PanelViewState { panel_id: owned(PANEL_ID), status: PanelStatus::Ready, sections: vec![section] }
}

} // verus!
