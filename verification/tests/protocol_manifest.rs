use warp_extension::protocol::manifest::{
    Activation, CommandContribution, ExecutionPolicy, ExtensionManifest, ManifestError, ManifestPermissions,
    PanelContribution, PanelLocation, api_version_from_text,
};
use warp_extension::protocol::permissions::Permission;
use warp_extension::protocol::wire::API_VERSION;

/// The reference manifest, as it parses:
///
/// ```toml
/// id = "dev.warp.git"
/// name = "Warp Git"
/// version = "0.1.0"
/// api_version = "1"
/// command = "./warp-git"
/// [activation]
/// workspace_contains = [".git"]
/// [permissions]
/// workspace_read = true
/// workspace_write = true
/// process_execute = true
/// git_mutate = true
/// [execution]
/// allowed_executables = ["git"]
/// [[commands]] id = "git.open", title = "Git: Open"
/// [[commands]] id = "git.fetch", title = "Git: Fetch"
/// [[panels]] id = "git", title = "Git", location = "left"
/// ```
fn reference() -> ExtensionManifest {
    let mut permissions = ManifestPermissions::default();
    permissions.workspace_read = true;
    permissions.workspace_write = true;
    permissions.process_execute = true;
    permissions.git_mutate = true;
    ExtensionManifest {
        id: "dev.warp.git".to_owned(),
        name: "Warp Git".to_owned(),
        version: "0.1.0".to_owned(),
        api_version: api_version_from_text("1").expect("a textual api_version reads"),
        command: "./warp-git".to_owned(),
        activation: Some(Activation { workspace_contains: vec![".git".to_owned()] }),
        permissions,
        execution: ExecutionPolicy { allowed_executables: vec!["git".to_owned()] },
        commands: vec![
            CommandContribution { id: "git.open".to_owned(), title: "Git: Open".to_owned() },
            CommandContribution { id: "git.fetch".to_owned(), title: "Git: Fetch".to_owned() },
        ],
        panels: vec![PanelContribution { id: "git".to_owned(), title: "Git".to_owned(), location: PanelLocation::Left }],
    }
}

#[test]
fn the_reference_manifest_parses_and_validates() {
    let manifest = reference();
    manifest.validate().expect("reference manifest is valid");

    assert_eq!(manifest.id, "dev.warp.git");
    assert_eq!(manifest.api_version, 1);
    assert_eq!(manifest.command, "./warp-git");
    assert_eq!(
        manifest.activation.as_ref().map(|activation| activation.workspace_contains.as_slice()),
        Some([".git".to_owned()].as_slice())
    );
    assert_eq!(manifest.commands.len(), 2);
    assert_eq!(manifest.panels[0].location, PanelLocation::Left);
}

#[test]
fn api_version_is_accepted_as_a_number_or_a_string() {
    assert_eq!(api_version_from_text("1"), Some(1));
    assert_eq!(api_version_from_text(" 1 "), Some(1));
    assert_eq!(api_version_from_text("one"), None);
    let mut manifest = reference();
    manifest.api_version = 1;
    assert_eq!(manifest.api_version, 1);
}

#[test]
fn an_unsupported_api_version_is_rejected_with_both_versions_named() {
    let mut manifest = reference();
    manifest.api_version = 99;
    let error = manifest.validate().expect_err("api_version 99 is unsupported");
    assert_eq!(error, ManifestError::UnsupportedApiVersion { requested: 99, supported: API_VERSION });
    assert_eq!(
        error.message(),
        "api_version 99 is not supported by this Warp build (supported: 1)"
    );
}

#[test]
fn a_command_that_escapes_the_extension_directory_is_rejected() {
    for command in ["/usr/bin/git", "../../usr/bin/git", "nested/../../escape"] {
        let mut manifest = reference();
        manifest.command = command.to_owned();
        let error = manifest.validate().expect_err("the command must be rejected");
        assert!(matches!(error, ManifestError::InvalidCommandPath(_)), "`{command}` must be rejected");
    }
}

#[test]
fn a_nested_relative_command_is_accepted() {
    let mut manifest = reference();
    manifest.command = "bin/warp-git".to_owned();
    manifest.validate().expect("a nested relative path is fine");
}

#[test]
fn malformed_ids_are_rejected() {
    for id in ["", "Dev.Warp.Git", "dev..git", "dev warp git", "dev/git"] {
        let mut manifest = reference();
        manifest.id = id.to_owned();
        assert!(manifest.validate().is_err(), "id `{id}` must be rejected");
    }
}

#[test]
fn duplicate_contribution_ids_are_rejected() {
    let mut manifest = reference();
    manifest.commands[1].id = "git.open".to_owned();
    let error = manifest.validate().expect_err("duplicate command ids fail");
    assert_eq!(error, ManifestError::DuplicateCommandId("git.open".to_owned()));
}

#[test]
fn process_execute_without_an_allowlist_fails_closed() {
    let mut manifest = reference();
    manifest.execution.allowed_executables = Vec::new();
    assert_eq!(
        manifest.validate().expect_err("an empty allowlist is rejected"),
        ManifestError::MissingExecutableAllowlist
    );
}

#[test]
fn an_allowlisted_executable_must_be_a_bare_name() {
    for executable in ["./git", "/usr/bin/git", "..", "sub/git"] {
        let mut manifest = reference();
        manifest.execution.allowed_executables = vec![executable.to_owned()];
        let error = manifest.validate().expect_err("the executable must be rejected");
        assert!(
            matches!(error, ManifestError::InvalidAllowedExecutable(_)),
            "`{executable}` must be rejected"
        );
    }
}

#[test]
fn allows_executable_matches_only_the_declared_names() {
    let manifest = reference();
    assert!(manifest.allows_executable("git"));
    assert!(!manifest.allows_executable("sh"));
    assert!(!manifest.allows_executable("/usr/bin/git"));
}

#[test]
fn declaring_a_contribution_grants_the_matching_ui_permission() {
    let manifest = reference();
    let granted = manifest.effective_permissions();

    assert!(granted.contains(Permission::UiCommands));
    assert!(granted.contains(Permission::UiPanel));
    assert!(granted.contains(Permission::WorkspaceRead));
    assert!(granted.contains(Permission::ProcessExecute));
    assert!(
        !granted.contains(Permission::UiNotifications),
        "a permission that was never declared must not be granted"
    );
}

#[test]
fn a_plugin_may_only_drive_surfaces_it_declared() {
    let manifest = reference();
    assert!(manifest.declares_panel("git"));
    assert!(!manifest.declares_panel("other"));
    assert!(manifest.declares_command("git.fetch"));
    assert!(!manifest.declares_command("git.push"));
}

#[test]
fn each_validation_failure_names_what_is_wrong() {
    let mut manifest = reference();
    manifest.id = String::new();
    assert_eq!(manifest.validate(), Err(ManifestError::MissingField("id")));

    let mut manifest = reference();
    manifest.id = "Dev".to_owned();
    assert_eq!(manifest.validate(), Err(ManifestError::InvalidId("Dev".to_owned())));

    let mut manifest = reference();
    manifest.name = "  ".to_owned();
    assert_eq!(manifest.validate(), Err(ManifestError::MissingField("name")));

    let mut manifest = reference();
    manifest.version = String::new();
    assert_eq!(manifest.validate(), Err(ManifestError::MissingField("version")));

    let mut manifest = reference();
    manifest.command = " ".to_owned();
    assert_eq!(manifest.validate(), Err(ManifestError::MissingField("command")));

    let mut manifest = reference();
    manifest.commands[0].id = " ".to_owned();
    assert_eq!(manifest.validate(), Err(ManifestError::EmptyCommandId));

    let mut manifest = reference();
    manifest.panels.push(PanelContribution { id: "git".to_owned(), title: "Again".to_owned(), location: PanelLocation::Right });
    assert_eq!(manifest.validate(), Err(ManifestError::DuplicatePanelId("git".to_owned())));

    let mut manifest = reference();
    manifest.panels[0].id = String::new();
    assert_eq!(manifest.validate(), Err(ManifestError::EmptyPanelId));

    assert_eq!(
        ManifestError::InvalidCommandPath("../x".to_owned()).message(),
        "command `../x` must be a relative path inside the extension directory"
    );
    assert_eq!(ManifestError::MissingField("id").message(), "manifest field `id` is required");
}

#[test]
fn a_dot_segment_inside_a_command_is_not_an_escape() {
    let mut manifest = reference();
    manifest.command = "./bin/./warp-git".to_owned();
    assert_eq!(manifest.validate(), Ok(()));
    manifest.command = "bin/..x".to_owned();
    assert_eq!(manifest.validate(), Ok(()), "`..x` names a file, not the parent");
}

#[test]
fn without_process_execute_no_allowlist_is_needed() {
    let mut manifest = reference();
    manifest.permissions.process_execute = false;
    manifest.execution.allowed_executables = vec!["/not/bare".to_owned()];
    assert_eq!(manifest.validate(), Ok(()));
    let granted = manifest.permissions.to_set();
    assert!(!granted.contains(Permission::ProcessExecute));
    assert_eq!(granted.len(), 3);
}

#[test]
fn windows_rules_also_reject_backslash_escapes_and_drives() {
    for command in ["..\\plugin", "bin\\..\\..\\x", "\\plugin", "C:plugin", "c:\\tools\\plugin", "/usr/bin/git"] {
        let mut manifest = reference();
        manifest.command = command.to_owned();
        let error = manifest.validate_on(true).expect_err("the command must be rejected");
        assert!(matches!(error, ManifestError::InvalidCommandPath(_)), "`{command}` must be rejected");
    }
    let mut manifest = reference();
    manifest.command = "bin\\warp-git".to_owned();
    assert_eq!(manifest.validate_on(true), Ok(()));
    manifest.command = "1:plugin".to_owned();
    assert_eq!(manifest.validate_on(true), Ok(()), "only a letter makes a drive");
}

#[test]
fn unix_rules_read_a_backslash_as_part_of_a_name() {
    let mut manifest = reference();
    for command in ["..\\plugin", "C:plugin", "\\plugin"] {
        manifest.command = command.to_owned();
        assert_eq!(manifest.validate_on(false), Ok(()), "`{command}` is one ordinary name");
    }
    manifest.command = "../plugin".to_owned();
    assert!(manifest.validate_on(false).is_err());
}
