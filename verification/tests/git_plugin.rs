use warp_extension::git::branches::{Branch, BranchScope};
use warp_extension::git::plugin::{
    CommandPlan, DeleteAction, DeleteEvent, DeleteStep, EventPlan, ForcePushPlan, PanelPlan, PushPlan, action_root, commit_diff_notice, commit_from_message,
    commit_prompt, comparison_for_section, create_argv, delete_branch_confirm, delete_start, delete_step, event_plan, failure_notice,
    force_delete_confirm, force_push_plan, plan_command, plan_panel_action, push_plan, rebase_notice, rebase_options,
    rename_argv, switch_options,
};
use warp_extension::git::repository::GitError;
use warp_extension::git::state::RepositoryState;
use warp_extension::git::status::{ChangeKind, FileChange};
use warp_extension::protocol::events::EventKind;
use warp_extension::protocol::methods::{DiffComparison, NotificationLevel};

fn branch(name: &str, is_head: bool, subject: &str) -> Branch {
    Branch {
        name: name.to_owned(),
        scope: BranchScope::Local,
        upstream: None,
        short_commit: "abc1234".to_owned(),
        subject: subject.to_owned(),
        is_head,
    }
}

fn state() -> RepositoryState {
    let mut state = RepositoryState {
        root: "/repo".to_owned(),
        branches: vec![branch("main", true, "Initial"), branch("feature", false, ""), branch("spike", false, "Try")],
        remotes: vec!["origin".to_owned()],
        ..Default::default()
    };
    state.status.branch.head = Some("main".to_owned());
    state
}

#[test]
fn a_diff_request_names_the_comparison_for_the_section_it_came_from() {
    assert_eq!(comparison_for_section("git.staged"), DiffComparison::HeadToIndex);
    assert_eq!(comparison_for_section("git.unstaged"), DiffComparison::IndexToWorktree);
    assert_eq!(comparison_for_section("git.untracked"), DiffComparison::IndexToWorktree);
    assert_eq!(comparison_for_section("git.conflicts"), DiffComparison::HeadToWorktree);

    match plan_panel_action("open_diff", "git.staged", "src/a.rs", Some("/repo")) {
        PanelPlan::OpenDiff { root, path, comparison } => {
            assert_eq!(root, "/repo");
            assert_eq!(path, "src/a.rs");
            assert_eq!(comparison, DiffComparison::HeadToIndex);
        }
        _ => panic!("open_diff opens a diff"),
    }
    assert!(matches!(plan_panel_action("open_diff", "git.staged", "a", None), PanelPlan::Ignore));
}

#[test]
fn discarding_asks_first_and_only_then_restores_the_file() {
    match plan_panel_action("discard", "git.unstaged", "a.rs", Some("/repo")) {
        PanelPlan::ConfirmThenRun { confirm, argv } => {
            assert_eq!(confirm.title, "Discard changes to a.rs?");
            assert_eq!(confirm.body.as_deref(), Some("This cannot be undone."));
            assert_eq!(confirm.confirm_label, "Discard");
            assert!(confirm.destructive);
            assert_eq!(argv, ["checkout", "--", "a.rs"]);
        }
        _ => panic!("discard asks first"),
    }
}

#[test]
fn row_actions_map_to_their_commands() {
    assert!(matches!(plan_panel_action("stage", "", "a.rs", None), PanelPlan::Run { argv } if argv == ["add", "--", "a.rs"]));
    assert!(matches!(
        plan_panel_action("checkout_remote", "", "origin/feature/x", None),
        PanelPlan::Run { argv } if argv == ["switch", "--create", "feature/x", "--track", "origin/feature/x"]
    ));
    match plan_panel_action("open_file", "", "src/a.rs", Some("/repo")) {
        PanelPlan::OpenFile { path } => assert_eq!(path, "/repo/src/a.rs"),
        _ => panic!("open_file opens the file"),
    }
    match plan_panel_action("rename_branch", "", "feature", None) {
        PanelPlan::Rename { prompt, branch } => {
            assert_eq!(prompt.title, "Rename feature");
            assert_eq!(prompt.placeholder.as_deref(), Some("new branch name"));
            assert_eq!(branch, "feature");
        }
        _ => panic!("rename asks for a name"),
    }
    assert_eq!(rename_argv("feature", "  topic \n"), ["branch", "--move", "feature", "topic"]);
    assert!(matches!(plan_panel_action("delete_branch", "", "old", None), PanelPlan::DeleteBranch { branch } if branch == "old"));
    assert!(matches!(plan_panel_action("frobnicate", "", "x", Some("/repo")), PanelPlan::Ignore));
}

#[test]
fn a_commit_row_opens_the_working_tree_and_names_the_commit() {
    assert!(matches!(plan_panel_action("open_commit", "", "abc123def456", Some("/r")), PanelPlan::OpenCommit { .. }));
    let notice = commit_diff_notice("abc123def456");
    assert_eq!(notice.title, "Commit diffs are not available yet");
    assert_eq!(
        notice.body.as_deref(),
        Some("Opened the working tree instead. Viewing abc123de needs diff.openCommit.")
    );
    assert_eq!(commit_diff_notice("abc").body.as_deref(), Some("Opened the working tree instead. Viewing abc needs diff.openCommit."));
}

#[test]
fn a_dismissed_commit_dialog_leaves_the_repository_untouched() {
    let mut with_staged = state();
    with_staged.status.staged = vec![FileChange { path: "a.rs".to_owned(), kind: ChangeKind::Added, original_path: None }];
    let prompt = commit_prompt(Some(&with_staged)).ok().expect("something is staged");
    assert_eq!(prompt.title, "Commit 1 staged file(s)");

    let refused = commit_prompt(Some(&state())).err().expect("nothing is staged");
    assert_eq!(refused.title, "Nothing staged to commit");
    assert_eq!(refused.level, NotificationLevel::Warning);

    let blank = commit_from_message("   ").err().expect("a blank message cancels");
    assert_eq!(blank.title, "Commit cancelled");
    assert_eq!(commit_from_message(" Fix it \n").ok(), Some(vec!["commit".to_owned(), "--message".to_owned(), "Fix it".to_owned()]));
}

#[test]
fn a_push_without_an_upstream_asks_to_set_one() {
    match push_plan(Some(&state())) {
        PushPlan::SetUpstream { confirm, argv } => {
            assert_eq!(confirm.title, "Push main to origin?");
            assert_eq!(confirm.body.as_deref(), Some("main has no upstream. This will set origin/main."));
            assert!(!confirm.destructive);
            assert_eq!(argv, ["push", "--set-upstream", "origin", "main"]);
        }
        _ => panic!("an unconfigured branch asks first"),
    }
    let mut tracking = state();
    tracking.status.branch.upstream = Some("origin/main".to_owned());
    assert!(matches!(push_plan(Some(&tracking)), PushPlan::Push { argv } if argv == ["push"]));
    assert!(matches!(push_plan(None), PushPlan::Refuse { .. }));
}

#[test]
fn a_force_push_names_what_it_rewrites() {
    let mut tracking = state();
    tracking.status.branch.upstream = Some("origin/main".to_owned());
    tracking.status.branch.behind = 2;
    match force_push_plan(Some(&tracking)) {
        ForcePushPlan::Confirm { confirm, argv } => {
            assert_eq!(confirm.title, "Force push main to origin/main?");
            assert_eq!(
                confirm.body.as_deref(),
                Some("This rewrites 2 commit(s) already on origin/main.\nUses --force-with-lease, so it will refuse if origin/main moved since your last fetch.")
            );
            assert!(confirm.destructive);
            assert_eq!(argv, ["push", "--force-with-lease"]);
        }
        _ => panic!("a tracking branch may be force pushed after confirming"),
    }
    assert!(matches!(force_push_plan(Some(&state())), ForcePushPlan::Refuse { .. }));
    assert!(matches!(force_push_plan(None), ForcePushPlan::Ignore));
}

#[test]
fn switching_and_rebasing_offer_the_other_local_branches() {
    let options = switch_options(Some(&state())).ok().expect("there are other branches");
    let ids: Vec<&str> = options.iter().map(|option| option.id.as_str()).collect();
    assert_eq!(ids, ["feature", "spike"]);
    assert_eq!(options[0].description, None);
    assert_eq!(options[1].description.as_deref(), Some("Try"));
    assert_eq!(rebase_options(Some(&state()))[1].description, None);

    let lone = RepositoryState { branches: vec![branch("main", true, "x")], ..Default::default() };
    let notice = switch_options(Some(&lone)).err().expect("no other branch");
    assert_eq!(notice.title, "No other branches");
}

#[test]
fn deleting_an_unmerged_branch_needs_a_second_confirmation() {
    let first = delete_branch_confirm("old");
    assert_eq!(first.title, "Delete branch \"old\"?");
    assert!(first.destructive);
    let second = force_delete_confirm("old", Some("main"), Some(3));
    assert_eq!(second.title, "Force delete \"old\"?");
    assert_eq!(
        second.body.as_deref(),
        Some("\"old\" has 3 commit(s) not merged into main. Deleting it may make them hard to recover.")
    );
    assert_eq!(second.confirm_label, "Force Delete");
    assert_eq!(
        force_delete_confirm("old", None, None).body.as_deref(),
        Some("\"old\" contains commits that are not merged anywhere else.")
    );
}

#[test]
fn failures_and_rebases_are_reported_in_gits_own_words() {
    let error = GitError::Command {
        command: "git rebase main".to_owned(),
        exit_code: Some(1),
        stderr: "\nCONFLICT (content): Merge conflict in a.rs\nerror: could not apply".to_owned(),
    };
    let notice = failure_notice(&error);
    assert_eq!(notice.title, "Git command failed");
    assert_eq!(notice.body.as_deref(), Some("CONFLICT (content): Merge conflict in a.rs"));
    assert_eq!(notice.level, NotificationLevel::Error);

    let paused = rebase_notice("main", &Err(error));
    assert_eq!(paused.title, "Rebase paused");
    assert_eq!(
        paused.body.as_deref(),
        Some("CONFLICT (content): Merge conflict in a.rs\nResolve the conflicts, then continue.")
    );
    assert_eq!(rebase_notice("main", &Ok(())).title, "Rebased onto main");
}

#[test]
fn commands_and_events_map_to_their_plans() {
    assert!(matches!(plan_command("git.fetch"), CommandPlan::Run { argv } if argv == ["fetch", "--prune"]));
    assert!(matches!(plan_command("git.commit"), CommandPlan::Commit));
    assert!(matches!(plan_command("git.unknown"), CommandPlan::Ignore));
    assert_eq!(create_argv(" topic "), ["switch", "--create", "topic"]);
    assert_eq!(event_plan(EventKind::ExtensionShutdown), EventPlan::Stop);
    assert_eq!(event_plan(EventKind::SshDisconnected), EventPlan::Disconnect);
    assert_eq!(event_plan(EventKind::CwdChanged), EventPlan::Refresh);
    assert_eq!(action_root(None, Some(&state())).as_deref(), Some("/repo"));
    assert_eq!(action_root(Some("/other"), Some(&state())).as_deref(), Some("/other"));
    assert_eq!(action_root(None, None), None);
}

fn argv(action: &DeleteAction) -> Vec<String> {
    match action {
        DeleteAction::SafeDelete(argv) | DeleteAction::Count(argv) | DeleteAction::ForceDelete(argv) => argv.clone(),
        _ => panic!("expected a command"),
    }
}

#[test]
fn a_merged_branch_is_deleted_safely_and_the_panel_refreshed() {
    let (step, action) = delete_start("feature");
    assert_eq!(step, DeleteStep::AwaitConfirm);
    let DeleteAction::Ask(confirm) = action else { panic!("the delete asks first") };
    assert_eq!(confirm.title, "Delete branch \"feature\"?");
    assert!(confirm.destructive);

    let (step, action) = delete_step("feature", Some("main"), step, DeleteEvent::Answered(true));
    assert_eq!(step, DeleteStep::AwaitSafeDelete);
    assert_eq!(argv(&action), ["branch", "--delete", "feature"]);

    let (step, action) = delete_step("feature", Some("main"), step, DeleteEvent::SafeDeleteExited(Some(0)));
    assert_eq!(step, DeleteStep::Done);
    assert!(matches!(action, DeleteAction::Refresh));
}

#[test]
fn an_unmerged_branch_is_force_deleted_only_after_a_second_consent() {
    let (step, _) = delete_start("feature");
    let (step, _) = delete_step("feature", Some("main"), step, DeleteEvent::Answered(true));
    let (step, action) = delete_step("feature", Some("main"), step, DeleteEvent::SafeDeleteExited(Some(1)));
    assert_eq!(step, DeleteStep::AwaitCount);
    assert_eq!(argv(&action), ["rev-list", "--count", "main..feature"]);

    let (step, action) = delete_step("feature", Some("main"), step, DeleteEvent::Counted(Some(3)));
    assert_eq!(step, DeleteStep::AwaitForceConfirm);
    let DeleteAction::Ask(forced) = action else { panic!("the force delete asks again") };
    assert_eq!(forced.title, "Force delete \"feature\"?");
    assert_eq!(
        forced.body.as_deref(),
        Some("\"feature\" has 3 commit(s) not merged into main. Deleting it may make them hard to recover.")
    );

    let (declined, action) = delete_step("feature", Some("main"), step, DeleteEvent::Answered(false));
    assert_eq!(declined, DeleteStep::Done);
    assert!(matches!(action, DeleteAction::Stop));

    let (done, action) = delete_step("feature", Some("main"), step, DeleteEvent::Answered(true));
    assert_eq!(done, DeleteStep::Done);
    assert_eq!(argv(&action), ["branch", "--delete", "--force", "feature"]);
}

#[test]
fn without_a_base_the_force_prompt_comes_straight_after_the_refusal() {
    let (step, action) = delete_step("feature", None, DeleteStep::AwaitSafeDelete, DeleteEvent::SafeDeleteExited(None));
    assert_eq!(step, DeleteStep::AwaitForceConfirm);
    let DeleteAction::Ask(forced) = action else { panic!("the force delete asks") };
    assert_eq!(forced.body.as_deref(), Some("\"feature\" contains commits that are not merged anywhere else."));
}

#[test]
fn declining_or_answering_out_of_turn_stops_the_delete() {
    let (step, action) = delete_step("feature", Some("main"), DeleteStep::AwaitConfirm, DeleteEvent::Answered(false));
    assert_eq!(step, DeleteStep::Done);
    assert!(matches!(action, DeleteAction::Stop));
    let (step, action) = delete_step("feature", Some("main"), DeleteStep::AwaitConfirm, DeleteEvent::Counted(Some(1)));
    assert_eq!(step, DeleteStep::Done);
    assert!(matches!(action, DeleteAction::Stop));
}
