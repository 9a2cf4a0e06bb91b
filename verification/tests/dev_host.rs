use warp_extension::dev::{
    DevCommandLine, DevInput, chosen_option, confirmed, describe_status, input_value, parse_args, prints_panel,
    read_input, usage,
};
use warp_extension::protocol::methods::{ExecutionTarget, PanelStatus};

fn args(items: &[&str]) -> Vec<String> {
    items.iter().map(|item| (*item).to_owned()).collect()
}

#[test]
fn the_command_line_reads_paths_targets_and_flags() {
    let Ok(DevCommandLine::Run(parsed)) =
        parse_args(&args(&["--extension-dev-path", "ext", "--repo", "/r", "--target", "ssh:abc", "--trace"]))
    else {
        panic!("a complete command line parses");
    };
    assert_eq!(parsed.extension_path, "ext");
    assert_eq!(parsed.repository.as_deref(), Some("/r"));
    assert_eq!(parsed.cwd.as_deref(), Some("/r"), "the working directory defaults to the repository");
    assert_eq!(parsed.target, ExecutionTarget::Ssh { session_id: "abc".to_owned() });
    assert!(parsed.trace);
}

#[test]
fn command_line_mistakes_are_named() {
    assert_eq!(parse_args(&args(&[])).err(), Some("--extension-dev-path is required".to_owned()));
    assert_eq!(parse_args(&args(&["--repo"])).err(), Some("--repo needs a directory".to_owned()));
    assert_eq!(
        parse_args(&args(&["--target", "docker"])).err(),
        Some("unrecognised target `docker`".to_owned())
    );
    assert_eq!(parse_args(&args(&["--bogus"])).err(), Some("unrecognised argument `--bogus`".to_owned()));
    assert!(matches!(parse_args(&args(&["-h", "--bogus"])), Ok(DevCommandLine::Help)));
    assert!(usage().starts_with("Usage: warp-extension-dev"));
}

#[test]
fn typed_lines_become_commands() {
    assert!(matches!(read_input("  q "), DevInput::Quit));
    assert!(matches!(read_input(""), DevInput::Nothing));
    assert!(matches!(read_input("c git.fetch"), DevInput::Invoke { command_id } if command_id == "git.fetch"));
    match read_input("a git.staged src/a b.rs open_diff") {
        DevInput::Activate { section, item, action } => {
            assert_eq!(section, "git.staged");
            assert_eq!(item, "src/a");
            assert_eq!(action, "b.rs open_diff");
        }
        _ => panic!("a row action reads its three arguments"),
    }
    assert!(matches!(read_input("a only"), DevInput::ActivateUsage));
    assert!(matches!(read_input("zap"), DevInput::Unrecognised { verb } if verb == "zap"));
}

#[test]
fn typed_answers_become_dialog_replies() {
    assert_eq!(chosen_option("2", 3), Some(1));
    assert_eq!(chosen_option("0", 3), None);
    assert_eq!(chosen_option("4", 3), None);
    assert_eq!(chosen_option("", 3), None);
    assert!(confirmed("Y"));
    assert!(!confirmed("yes"));
    assert_eq!(input_value(""), None);
    assert_eq!(input_value("topic").as_deref(), Some("topic"));
    assert_eq!(describe_status(&PanelStatus::Error { message: "boom".to_owned() }), "error: boom");
    assert!(!prints_panel(&PanelStatus::Loading));
    assert!(prints_panel(&PanelStatus::Ready));
}
