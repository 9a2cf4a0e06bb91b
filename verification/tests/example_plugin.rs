use warp_extension::example::{ExampleStep, describe, example_step, panel_state, sample_path};
use warp_extension::protocol::events::EventKind;
use warp_extension::protocol::methods::{ExecutionTarget, PanelStatus, WorkspaceContext};

fn context(repository_root: Option<&str>) -> WorkspaceContext {
    WorkspaceContext {
        workspace_id: "ws".to_owned(),
        cwd: "/home/user/project".to_owned(),
        repository_root: repository_root.map(str::to_owned),
        active_pane_id: None,
        session_id: Some("ssh-1".to_owned()),
        execution_target: ExecutionTarget::Ssh { session_id: "ssh-1".to_owned() },
    }
}

#[test]
fn the_panel_describes_the_workspace() {
    let view = panel_state(&context(Some("/home/user/project")));
    assert_eq!(view.panel_id, "example");
    assert_eq!(view.status, PanelStatus::Ready);
    let section = &view.sections[0];
    assert_eq!(section.id, "example.context");
    let labels: Vec<&str> = section.items.iter().map(|item| item.label.as_str()).collect();
    assert_eq!(labels, ["/home/user/project", "ssh session ssh-1", "/home/user/project"]);
    assert_eq!(section.items[2].actions[0].id, "open_diff");

    let outside = panel_state(&context(None));
    assert_eq!(outside.sections[0].items[2].label, "no repository");
}

#[test]
fn targets_and_sample_paths_are_described_plainly() {
    assert_eq!(describe(&ExecutionTarget::Local), "local");
    assert_eq!(sample_path(&context(Some("/r"))), "/r/README.md");
    assert_eq!(sample_path(&context(None)), "/home/user/project/README.md");
}

#[test]
fn each_event_has_one_response() {
    assert_eq!(example_step(EventKind::ExtensionShutdown), ExampleStep::Stop);
    assert_eq!(example_step(EventKind::PanelAction), ExampleStep::OpenDiff);
    assert_eq!(example_step(EventKind::CommandInvoked), ExampleStep::Greet);
    assert_eq!(example_step(EventKind::SshConnected), ExampleStep::Republish);
}
